//! Values that several operations share: the data frame and the model
//! context that request bodies are made from, and the lists and parameters
//! that arrive as comma-separated text.

use crate::numbers::{parse_i32, parse_i32_text, IntParseFault};
use crate::text::{signed_decimal_string, signed_decimal_text, split, split_text, trim, trim_text};
use vstd::prelude::*;
use vstd::string::*;

verus! {

/// A table of text cells with named, typed columns.
#[derive(Clone, Debug)]
pub struct DataFrame {
    pub attribute_names: Vec<String>,
    pub data: Vec<Vec<String>>,
    pub attribute_types: Vec<String>,
    pub error_handling: Option<i32>,
}

/// Which columns a model reads and which it predicts, by index or by name,
/// with further parameters for the algorithm.
#[derive(Clone, Debug)]
pub struct MLContext {
    pub targets: Option<Vec<String>>,
    pub input_attributes: Option<Vec<String>>,
    pub input_attribute_names: Option<Vec<String>>,
    pub target_attribute_names: Option<Vec<String>>,
    pub extra_parameters: ParamMap,
}

/// A list of key-value maps.
#[derive(Clone, Debug)]
pub struct KSVSMap {
    pub values: Vec<ParamMap>,
}

/// The fields of a comma-separated list, each without the white space around
/// it.
pub open spec fn trimmed_fields(s: Seq<char>) -> Seq<Seq<char>> {
    split_text(s, ',').map_values(|field: Seq<char>| trim_text(field))
}

/// Helper function to parse comma-separated strings.
pub fn parse_string_list(s: &str) -> (r: Vec<String>)
    ensures
        r.deep_view() == trimmed_fields(s@),
{
    let pieces = split(s, ',');
    let n: usize = pieces.len();
    let mut out: Vec<String> = Vec::new();
    let mut i: usize = 0;
    while i < n
        invariant
            i <= n == pieces@.len(),
            pieces.deep_view() == split_text(s@, ','),
            out@.len() == i,
            forall|j: int| 0 <= j < i ==> (#[trigger] out@[j])@ == trim_text(pieces@[j]@),
        decreases n - i,
    {
        out.push(trim(pieces[i].as_str()));
        i += 1;
    }
    out
}

/// The text that names a fault found while reading an integer.
pub open spec fn fault_text(fault: IntParseFault) -> Seq<char> {
    match fault {
        IntParseFault::Empty => "cannot parse integer from empty string"@,
        IntParseFault::InvalidDigit => "invalid digit found in string"@,
        IntParseFault::PosOverflow => "number too large to fit in target type"@,
        IntParseFault::NegOverflow => "number too small to fit in target type"@,
    }
}

/// A field of a list that is not an integer, and why.
#[derive(Clone, Debug)]
pub struct IntListError {
    pub item: String,
    pub fault: IntParseFault,
}

/// What an `IntListError` holds, as text.
pub ghost struct IntListErrorView {
    pub item: Seq<char>,
    pub fault: IntParseFault,
}

impl View for IntListError {
    type V = IntListErrorView;

    open spec fn view(&self) -> IntListErrorView {
        IntListErrorView { item: self.item@, fault: self.fault }
    }
}

impl IntListError {
    /// The message of this error.
    pub open spec fn message_text(self) -> Seq<char> {
        "Failed to parse '"@ + self.item@ + "' as integer: "@ + fault_text(self.fault)
    }

    /// Says which field could not be read, and why.
    pub fn message(&self) -> (r: String)
        ensures
            r@ == self.message_text(),
    {
        let mut out = String::new();
        out.append("Failed to parse '");
        out.append(self.item.as_str());
        out.append("' as integer: ");
        match self.fault {
            IntParseFault::Empty => out.append("cannot parse integer from empty string"),
            IntParseFault::InvalidDigit => out.append("invalid digit found in string"),
            IntParseFault::PosOverflow => out.append("number too large to fit in target type"),
            IntParseFault::NegOverflow => out.append("number too small to fit in target type"),
        }
        out
    }
}

/// The integers that the fields of a list stand for, each field trimmed
/// first; or the leftmost field that is no integer.
pub open spec fn int_list(fields: Seq<Seq<char>>) -> Result<Seq<int>, IntListErrorView>
    decreases fields.len(),
{
    if fields.len() == 0 {
        Ok(Seq::empty())
    } else {
        match int_list(fields.drop_last()) {
            Err(e) => Err(e),
            Ok(values) => match parse_i32_text(trim_text(fields.last())) {
                Err(fault) => Err(IntListErrorView { item: trim_text(fields.last()), fault }),
                Ok(v) => Ok(values.push(v)),
            },
        }
    }
}

/// An error among the first fields of a list is the error of the whole list.
proof fn lemma_int_list_error(fields: Seq<Seq<char>>, upto: int)
    requires
        0 <= upto <= fields.len(),
        int_list(fields.take(upto)) is Err,
    ensures
        int_list(fields) == int_list(fields.take(upto)),
    decreases fields.len() - upto,
{
    if upto == fields.len() {
        assert(fields.take(upto) =~= fields);
    } else {
        assert(fields.take(upto + 1).drop_last() =~= fields.take(upto));
        lemma_int_list_error(fields, upto + 1);
    }
}

/// The views of a vector of 32-bit integers.
pub open spec fn ints_of(v: Seq<i32>) -> Seq<int> {
    v.map_values(|x: i32| x as int)
}

/// Helper function to parse comma-separated integers.
pub fn parse_int_list(s: &str) -> (r: Result<Vec<i32>, IntListError>)
    ensures
        match r {
            Ok(values) => int_list(split_text(s@, ',')) == Ok::<Seq<int>, IntListErrorView>(
                ints_of(values@),
            ),
            Err(e) => int_list(split_text(s@, ',')) == Err::<Seq<int>, IntListErrorView>(e@),
        },
{
    let pieces = split(s, ',');
    let n: usize = pieces.len();
    let ghost fields = split_text(s@, ',');
    let mut out: Vec<i32> = Vec::new();
    let mut i: usize = 0;
    assert(ints_of(out@) =~= Seq::<int>::empty());
    while i < n
        invariant
            i <= n == pieces@.len(),
            fields == split_text(s@, ','),
            pieces.deep_view() == fields,
            int_list(fields.take(i as int)) == Ok::<Seq<int>, IntListErrorView>(ints_of(out@)),
        decreases n - i,
    {
        let item = trim(pieces[i].as_str());
        assert(fields.take(i + 1).drop_last() =~= fields.take(i as int));
        match parse_i32(item.as_str()) {
            Ok(v) => {
                let ghost before = ints_of(out@);
                out.push(v);
                assert(ints_of(out@) =~= before.push(v as int));
            },
            Err(fault) => {
                proof {
                    lemma_int_list_error(fields, i + 1);
                }
                return Err(IntListError { item, fault });
            },
        }
        i += 1;
    }
    assert(fields.take(n as int) =~= fields);
    Ok(out)
}

/// The decimal texts of a sequence of integers.
pub open spec fn decimal_texts(values: Seq<int>) -> Seq<Seq<char>> {
    values.map_values(|v: int| signed_decimal_text(v))
}

/// Helper function to parse comma-separated integers and return as strings:
/// each field is checked to be an integer and written back in plain decimal.
pub fn parse_int_list_as_strings(s: &str) -> (r: Result<Vec<String>, IntListError>)
    ensures
        match r {
            Ok(texts) => int_list(split_text(s@, ',')) matches Ok(values) && texts.deep_view()
                == decimal_texts(values),
            Err(e) => int_list(split_text(s@, ',')) == Err::<Seq<int>, IntListErrorView>(e@),
        },
{
    let values = match parse_int_list(s) {
        Ok(values) => values,
        Err(e) => {
            return Err(e);
        },
    };
    let n: usize = values.len();
    let mut out: Vec<String> = Vec::new();
    let mut i: usize = 0;
    while i < n
        invariant
            i <= n == values@.len(),
            out@.len() == i,
            forall|j: int| 0 <= j < i ==> (#[trigger] out@[j])@ == signed_decimal_text(
                values@[j] as int,
            ),
        decreases n - i,
    {
        out.push(signed_decimal_string(values[i]));
        i += 1;
    }
    Ok(out)
}

/// Named parameters, each name once.
#[derive(Clone, Debug)]
pub struct ParamMap {
    pub entries: Vec<(String, String)>,
}

/// The map that a list of entries stands for, where a later entry replaces an
/// earlier one of the same name.
pub open spec fn entries_map(entries: Seq<(Seq<char>, Seq<char>)>) -> Map<Seq<char>, Seq<char>>
    decreases entries.len(),
{
    if entries.len() == 0 {
        Map::empty()
    } else {
        entries_map(entries.drop_last()).insert(entries.last().0, entries.last().1)
    }
}

impl ParamMap {
    /// The entries as text.
    pub open spec fn entry_texts(self) -> Seq<(Seq<char>, Seq<char>)> {
        self.entries@.map_values(|e: (String, String)| (e.0@, e.1@))
    }

    /// No name occurs twice.
    pub open spec fn wf(self) -> bool {
        forall|i: int, j: int|
            0 <= i < j < self.entries@.len() ==> (#[trigger] self.entries@[i]).0@ != (
            #[trigger] self.entries@[j]).0@
    }
}

impl View for ParamMap {
    type V = Map<Seq<char>, Seq<char>>;

    open spec fn view(&self) -> Map<Seq<char>, Seq<char>> {
        entries_map(self.entry_texts())
    }
}

/// Writing `value` over the entry at `at` is inserting under that entry's
/// name, as long as no name occurs twice.
proof fn lemma_entries_map_update(
    entries: Seq<(Seq<char>, Seq<char>)>,
    at: int,
    value: Seq<char>,
)
    requires
        0 <= at < entries.len(),
        forall|i: int, j: int|
            0 <= i < j < entries.len() ==> (#[trigger] entries[i]).0 != (#[trigger] entries[j]).0,
    ensures
        entries_map(entries.update(at, (entries[at].0, value))) == entries_map(entries).insert(
            entries[at].0,
            value,
        ),
    decreases entries.len(),
{
    let updated = entries.update(at, (entries[at].0, value));
    let front = entries.drop_last();
    if at == entries.len() - 1 {
        assert(updated.drop_last() =~= front);
    } else {
        assert(updated.drop_last() =~= front.update(at, (front[at].0, value)));
        lemma_entries_map_update(front, at, value);
    }
}

/// The map after one `name=value` pair is taken in. The pair is trimmed
/// first; one that does not hold exactly one `=` changes nothing.
pub open spec fn apply_param(base: Map<Seq<char>, Seq<char>>, pair: Seq<char>) -> Map<
    Seq<char>,
    Seq<char>,
> {
    let parts = split_text(trim_text(pair), '=');
    if parts.len() == 2 {
        base.insert(parts[0], parts[1])
    } else {
        base
    }
}

/// The map after a list of pairs is taken in, from the first to the last.
pub open spec fn apply_params(base: Map<Seq<char>, Seq<char>>, pairs: Seq<Seq<char>>) -> Map<
    Seq<char>,
    Seq<char>,
>
    decreases pairs.len(),
{
    if pairs.len() == 0 {
        base
    } else {
        apply_param(apply_params(base, pairs.drop_last()), pairs.last())
    }
}

impl ParamMap {
    /// A map without entries.
    pub fn new() -> (r: ParamMap)
        ensures
            r.wf(),
            r@ == Map::<Seq<char>, Seq<char>>::empty(),
    {
        let r = ParamMap { entries: Vec::new() };
        r
    }

    /// Sets `key` to `value`, in place of what it was set to before.
    pub fn insert(&mut self, key: String, value: String)
        requires
            old(self).wf(),
        ensures
            final(self).wf(),
            final(self)@ == old(self)@.insert(key@, value@),
    {
        let n: usize = self.entries.len();
        let mut i: usize = 0;
        while i < n
            invariant
                i <= n == self.entries@.len(),
                *self == *old(self),
                self.wf(),
                forall|k: int| 0 <= k < i ==> (#[trigger] self.entries@[k]).0@ != key@,
            decreases n - i,
        {
            if self.entries[i].0 == key {
                let ghost before = self.entry_texts();
                self.entries.set(i, (key, value));
                proof {
                    lemma_entries_map_update(before, i as int, value@);
                    assert(self.entry_texts() =~= before.update(i as int, (key@, value@)));
                    assert forall|a: int, b: int|
                        0 <= a < b < self.entries@.len() implies (#[trigger] self.entries@[a]).0@
                        != (#[trigger] self.entries@[b]).0@ by {}
                }
                return ;
            }
            i += 1;
        }
        let ghost before = self.entry_texts();
        self.entries.push((key, value));
        assert(self.entry_texts().drop_last() =~= before);
    }

    /// Takes in a comma-separated list of `name=value` pairs. A pair that
    /// does not hold exactly one `=` is passed over.
    pub fn extend_from_text(&mut self, params: &str)
        requires
            old(self).wf(),
        ensures
            final(self).wf(),
            final(self)@ == apply_params(old(self)@, split_text(params@, ',')),
    {
        let pairs = split(params, ',');
        let n: usize = pairs.len();
        let ghost fields = split_text(params@, ',');
        let mut i: usize = 0;
        while i < n
            invariant
                i <= n == pairs@.len(),
                pairs.deep_view() == fields,
                self.wf(),
                self@ == apply_params(old(self)@, fields.take(i as int)),
            decreases n - i,
        {
            let pair = trim(pairs[i].as_str());
            let parts = split(pair.as_str(), '=');
            assert(fields.take(i + 1).drop_last() =~= fields.take(i as int));
            if parts.len() == 2 {
                self.insert(parts[0].clone(), parts[1].clone());
            }
            i += 1;
        }
        assert(fields.take(n as int) =~= fields);
    }
}

/// What a `DataFrame` holds, as text.
pub ghost struct DataFrameView {
    pub attribute_names: Seq<Seq<char>>,
    pub data: Seq<Seq<Seq<char>>>,
    pub attribute_types: Seq<Seq<char>>,
    pub error_handling: Option<i32>,
}

impl View for DataFrame {
    type V = DataFrameView;

    open spec fn view(&self) -> DataFrameView {
        DataFrameView {
            attribute_names: self.attribute_names.deep_view(),
            data: self.data.deep_view(),
            attribute_types: self.attribute_types.deep_view(),
            error_handling: self.error_handling,
        }
    }
}

/// Why a file's lines do not make a data frame.
#[derive(Clone, Copy, Debug, PartialEq, Eq, Structural)]
pub enum DataError {
    /// The file has no line, so no header.
    EmptyCsv,
    /// As many types were given, for as many columns.
    TypeCountMismatch { types: usize, columns: usize },
}

/// The rows of a table: one for every line that is not blank, made of the
/// line's comma-separated fields, trimmed.
pub open spec fn csv_rows(lines: Seq<Seq<char>>) -> Seq<Seq<Seq<char>>>
    decreases lines.len(),
{
    if lines.len() == 0 {
        Seq::empty()
    } else if trim_text(lines.last()).len() == 0 {
        csv_rows(lines.drop_last())
    } else {
        csv_rows(lines.drop_last()).push(trimmed_fields(lines.last()))
    }
}

/// The type `C`, for a continuous column, once for each of `columns`.
pub open spec fn continuous_types(columns: nat) -> Seq<Seq<char>> {
    Seq::new(columns, |i: int| seq!['C'])
}

/// The data frame that the lines of a file stand for. The first line names
/// the columns; the others are the rows. The types are those given, which
/// must be as many as the columns, or `C` for every column where none are
/// given.
pub open spec fn data_frame_of(
    lines: Seq<Seq<char>>,
    types: Option<Seq<char>>,
    error_handling: Option<i32>,
) -> Result<DataFrameView, DataError> {
    if lines.len() == 0 {
        Err(DataError::EmptyCsv)
    } else {
        let names = trimmed_fields(lines[0]);
        let data = csv_rows(lines.subrange(1, lines.len() as int));
        match types {
            Some(text) => if trimmed_fields(text).len() != names.len() {
                Err(
                    DataError::TypeCountMismatch {
                        types: trimmed_fields(text).len() as usize,
                        columns: names.len() as usize,
                    },
                )
            } else {
                Ok(
                    DataFrameView {
                        attribute_names: names,
                        data,
                        attribute_types: trimmed_fields(text),
                        error_handling,
                    },
                )
            },
            None => Ok(
                DataFrameView {
                    attribute_names: names,
                    data,
                    attribute_types: continuous_types(names.len()),
                    error_handling,
                },
            ),
        }
    }
}

impl DataError {
    /// The message of this error.
    pub open spec fn message_text(self) -> Seq<char> {
        match self {
            DataError::EmptyCsv => "Empty CSV file"@,
            DataError::TypeCountMismatch { types, columns } => "Number of attribute types ("@
                + crate::text::decimal_text(types as nat)
                + ") does not match number of columns ("@ + crate::text::decimal_text(
                columns as nat,
            ) + ")"@,
        }
    }

    /// Says what is wrong with the file or the types.
    pub fn message(&self) -> (r: String)
        ensures
            r@ == self.message_text(),
    {
        let mut out = String::new();
        match self {
            DataError::EmptyCsv => {
                out.append("Empty CSV file");
            },
            DataError::TypeCountMismatch { types, columns } => {
                out.append("Number of attribute types (");
                crate::text::push_decimal(&mut out, *types as u64);
                out.append(") does not match number of columns (");
                crate::text::push_decimal(&mut out, *columns as u64);
                out.append(")");
            },
        }
        out
    }
}

impl DataFrame {
    /// Builds a data frame from the lines of a CSV file.
    pub fn from_csv(lines: &Vec<String>, types: Option<&str>, error_handling: Option<i32>) -> (r:
        Result<DataFrame, DataError>)
        ensures
            match r {
                Ok(frame) => Ok::<DataFrameView, DataError>(frame@),
                Err(e) => Err::<DataFrameView, DataError>(e),
            } == data_frame_of(
                lines.deep_view(),
                crate::auth::optional_text(types),
                error_handling,
            ),
    {
        let n: usize = lines.len();
        if n == 0 {
            return Err(DataError::EmptyCsv);
        }
        let ghost texts = lines.deep_view();
        let ghost body = texts.subrange(1, n as int);
        let attribute_names = parse_string_list(lines[0].as_str());
        let mut data: Vec<Vec<String>> = Vec::new();
        let mut i: usize = 1;
        while i < n
            invariant
                1 <= i <= n == lines@.len(),
                texts == lines.deep_view(),
                body == texts.subrange(1, n as int),
                data.deep_view() == csv_rows(body.take(i - 1)),
            decreases n - i,
        {
            let line: &str = lines[i].as_str();
            assert(body.take(i as int).drop_last() =~= body.take(i - 1));
            let blank = trim(line);
            if !blank.as_str().is_empty() {
                let row = parse_string_list(line);
                data.push(row);
            }
            i += 1;
        }
        assert(body.take(n - 1) =~= body);
        let attribute_types = match types {
            Some(text) => {
                let given = parse_string_list(text);
                if given.len() != attribute_names.len() {
                    return Err(
                        DataError::TypeCountMismatch {
                            types: given.len(),
                            columns: attribute_names.len(),
                        },
                    );
                }
                given
            },
            None => {
                let columns: usize = attribute_names.len();
                let mut all: Vec<String> = Vec::new();
                let mut k: usize = 0;
                while k < columns
                    invariant
                        k <= columns,
                        all@.len() == k,
                        forall|j: int| 0 <= j < k ==> (#[trigger] all@[j])@ == seq!['C'],
                    decreases columns - k,
                {
                    let mut c = String::new();
                    crate::text::push_char(&mut c, 'C');
                    all.push(c);
                    k += 1;
                }
                assert(all.deep_view() =~= continuous_types(columns as nat));
                all
            },
        };
        Ok(DataFrame { attribute_names, data, attribute_types, error_handling })
    }
}

} // verus!
