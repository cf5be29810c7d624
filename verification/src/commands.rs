//! What each command works out before anything is sent: where its data comes
//! from, and the model context that its arguments describe.

use crate::cli::{Commands, LearnArgs};
use crate::common::{
    apply_params, data_frame_of, decimal_texts, int_list, ints_of, parse_int_list,
    parse_int_list_as_strings, parse_string_list, trimmed_fields, DataError, DataFrame,
    DataFrameView, IntListError, IntListErrorView, MLContext, ParamMap,
};
use crate::config::option_text;
use crate::rest::RestOperation;
use crate::text::split_text;
use crate::ws::WsOperation;
use vstd::prelude::*;
use vstd::string::*;

verus! {

/// Where the data of a prediction or a validation comes from.
#[derive(Clone, Debug)]
pub enum DataSource {
    /// A data frame, given as JSON.
    Json(String),
    /// A file of comma-separated values, given by its path.
    File(String),
}

/// Why the data has no one source.
#[derive(Clone, Copy, Debug, PartialEq, Eq, Structural)]
pub enum InputError {
    /// Neither a data frame nor a file is given.
    Neither,
    /// Both a data frame and a file are given.
    Both,
}

/// The source of the data: the data frame or the file, whichever is given; an
/// error where both are, or neither is.
pub open spec fn source_of(df: Option<String>, file: Option<String>) -> Result<
    DataSource,
    InputError,
> {
    match (df, file) {
        (None, None) => Err(InputError::Neither),
        (Some(_), Some(_)) => Err(InputError::Both),
        (Some(json), None) => Ok(DataSource::Json(json)),
        (None, Some(path)) => Ok(DataSource::File(path)),
    }
}

/// Chooses between a data frame given as JSON and a data file.
pub fn choose_input(df: Option<String>, file: Option<String>) -> (r: Result<
    DataSource,
    InputError,
>)
    ensures
        r == source_of(df, file),
{
    match (df, file) {
        (None, None) => Err(InputError::Neither),
        (Some(_), Some(_)) => Err(InputError::Both),
        (Some(json), None) => Ok(DataSource::Json(json)),
        (None, Some(path)) => Ok(DataSource::File(path)),
    }
}

impl InputError {
    /// The message of this error, for options whose names start with `--`
    /// and `prefix`.
    pub open spec fn message_text(self, prefix: Seq<char>) -> Seq<char> {
        match self {
            InputError::Neither => "Must specify either --"@ + prefix
                + "df (JSON dataframe) or --"@ + prefix + "file (data file)"@,
            InputError::Both => "Cannot specify both --"@ + prefix + "df and --"@ + prefix
                + "file. Choose one."@,
        }
    }

    /// Says which options are missing or at odds.
    pub fn message(&self, prefix: &str) -> (r: String)
        ensures
            r@ == self.message_text(prefix@),
    {
        let mut out = String::new();
        match self {
            InputError::Neither => {
                out.append("Must specify either --");
                out.append(prefix);
                out.append("df (JSON dataframe) or --");
                out.append(prefix);
                out.append("file (data file)");
            },
            InputError::Both => {
                out.append("Cannot specify both --");
                out.append(prefix);
                out.append("df and --");
                out.append(prefix);
                out.append("file. Choose one.");
            },
        }
        out
    }
}

/// The parameters that a comma-separated list of `name=value` pairs sets on
/// top of `base`; `base` itself where no list is given.
pub open spec fn params_of(base: Map<Seq<char>, Seq<char>>, params: Option<Seq<char>>) -> Map<
    Seq<char>,
    Seq<char>,
> {
    match params {
        Some(text) => apply_params(base, split_text(text, ',')),
        None => base,
    }
}

fn read_params(base: ParamMap, params: &Option<String>) -> (r: ParamMap)
    requires
        base.wf(),
    ensures
        r.wf(),
        r@ == params_of(base@, option_text(*params)),
{
    let mut map = base;
    match params {
        Some(text) => {
            map.extend_from_text(text.as_str());
        },
        None => {},
    }
    map
}

/// The body of a request that creates a project: the project saves itself,
/// and takes the parameters given on top of that.
pub open spec fn project_params_of(params: Option<Seq<char>>) -> Map<Seq<char>, Seq<char>> {
    params_of(
        Map::<Seq<char>, Seq<char>>::empty().insert("sml_project_autosave"@, "true"@),
        params,
    )
}

/// Works out the parameters that go into the body of a request to create a
/// project.
pub fn project_params(params: &Option<String>) -> (r: ParamMap)
    ensures
        r.wf(),
        r@ == project_params_of(option_text(*params)),
{
    let mut base = ParamMap::new();
    base.insert("sml_project_autosave".to_owned(), "true".to_owned());
    read_params(base, params)
}

/// The fields of an optional comma-separated list, trimmed.
pub open spec fn optional_fields(list: Option<Seq<char>>) -> Option<Seq<Seq<char>>> {
    match list {
        Some(text) => Some(trimmed_fields(text)),
        None => None,
    }
}

/// The integers of an optional comma-separated list.
pub open spec fn optional_int_list(list: Option<Seq<char>>) -> Result<
    Option<Seq<int>>,
    IntListErrorView,
> {
    match list {
        None => Ok(None),
        Some(text) => match int_list(split_text(text, ',')) {
            Ok(values) => Ok(Some(values)),
            Err(e) => Err(e),
        },
    }
}

/// The deep view of an optional list of strings.
pub open spec fn optional_texts(list: Option<Vec<String>>) -> Option<Seq<Seq<char>>> {
    match list {
        Some(items) => Some(items.deep_view()),
        None => None,
    }
}

/// The view of an optional list of integers.
pub open spec fn optional_ints(list: Option<Vec<i32>>) -> Option<Seq<int>> {
    match list {
        Some(items) => Some(ints_of(items@)),
        None => None,
    }
}

fn read_fields(list: &Option<String>) -> (r: Option<Vec<String>>)
    ensures
        optional_texts(r) == optional_fields(option_text(*list)),
{
    match list {
        Some(text) => Some(parse_string_list(text.as_str())),
        None => None,
    }
}

/// The model context of a build, with columns named by index as integers.
#[derive(Clone, Debug)]
pub struct BuildContext {
    pub targets: Option<Vec<i32>>,
    pub input_attributes: Option<Vec<i32>>,
    pub input_attribute_names: Option<Vec<String>>,
    pub target_attribute_names: Option<Vec<String>>,
    pub extra_parameters: ParamMap,
}

/// What a `BuildContext` holds.
pub ghost struct BuildContextView {
    pub targets: Option<Seq<int>>,
    pub input_attributes: Option<Seq<int>>,
    pub input_attribute_names: Option<Seq<Seq<char>>>,
    pub target_attribute_names: Option<Seq<Seq<char>>>,
    pub extra_parameters: Map<Seq<char>, Seq<char>>,
}

impl View for BuildContext {
    type V = BuildContextView;

    open spec fn view(&self) -> BuildContextView {
        BuildContextView {
            targets: optional_ints(self.targets),
            input_attributes: optional_ints(self.input_attributes),
            input_attribute_names: optional_texts(self.input_attribute_names),
            target_attribute_names: optional_texts(self.target_attribute_names),
            extra_parameters: self.extra_parameters@,
        }
    }
}

/// Why the arguments of a build describe no model context.
#[derive(Clone, Debug)]
pub enum BuildError {
    /// Columns are given by index and by name at once.
    MixedForms,
    /// Columns are given neither by index nor by name.
    NoForm,
    /// A target index is no integer.
    Targets(IntListError),
    /// An input index is no integer.
    Inputs(IntListError),
}

/// What a `BuildError` holds.
pub ghost enum BuildErrorView {
    MixedForms,
    NoForm,
    Targets(IntListErrorView),
    Inputs(IntListErrorView),
}

impl View for BuildError {
    type V = BuildErrorView;

    open spec fn view(&self) -> BuildErrorView {
        match self {
            BuildError::MixedForms => BuildErrorView::MixedForms,
            BuildError::NoForm => BuildErrorView::NoForm,
            BuildError::Targets(e) => BuildErrorView::Targets(e@),
            BuildError::Inputs(e) => BuildErrorView::Inputs(e@),
        }
    }
}

/// The model context of a build. Columns are given either by index, as
/// targets and inputs, or by name, never both and never neither. The indexes
/// must be integers; the targets are read before the inputs.
pub open spec fn build_context_of(
    targets: Option<Seq<char>>,
    inputs: Option<Seq<char>>,
    target_names: Option<Seq<char>>,
    input_names: Option<Seq<char>>,
    params: Option<Seq<char>>,
) -> Result<BuildContextView, BuildErrorView> {
    let using_ids = targets is Some || inputs is Some;
    let using_names = target_names is Some || input_names is Some;
    if using_ids && using_names {
        Err(BuildErrorView::MixedForms)
    } else if !using_ids && !using_names {
        Err(BuildErrorView::NoForm)
    } else {
        match optional_int_list(targets) {
            Err(e) => Err(BuildErrorView::Targets(e)),
            Ok(target_ids) => match optional_int_list(inputs) {
                Err(e) => Err(BuildErrorView::Inputs(e)),
                Ok(input_ids) => Ok(
                    BuildContextView {
                        targets: target_ids,
                        input_attributes: input_ids,
                        input_attribute_names: optional_fields(input_names),
                        target_attribute_names: optional_fields(target_names),
                        extra_parameters: params_of(Map::empty(), params),
                    },
                ),
            },
        }
    }
}

fn read_ints(list: &Option<String>) -> (r: Result<Option<Vec<i32>>, IntListError>)
    ensures
        match r {
            Ok(values) => Ok::<Option<Seq<int>>, IntListErrorView>(optional_ints(values)),
            Err(e) => Err::<Option<Seq<int>>, IntListErrorView>(e@),
        } == optional_int_list(option_text(*list)),
{
    match list {
        None => Ok(None),
        Some(text) => match parse_int_list(text.as_str()) {
            Ok(values) => Ok(Some(values)),
            Err(e) => Err(e),
        },
    }
}

/// Works out the model context of a build from its arguments.
pub fn build_context(
    targets: &Option<String>,
    inputs: &Option<String>,
    target_names: &Option<String>,
    input_names: &Option<String>,
    params: &Option<String>,
) -> (r: Result<BuildContext, BuildError>)
    ensures
        match r {
            Ok(context) => Ok::<BuildContextView, BuildErrorView>(context@),
            Err(e) => Err::<BuildContextView, BuildErrorView>(e@),
        } == build_context_of(
            option_text(*targets),
            option_text(*inputs),
            option_text(*target_names),
            option_text(*input_names),
            option_text(*params),
        ),
{
    let using_ids: bool = targets.is_some() || inputs.is_some();
    let using_names: bool = target_names.is_some() || input_names.is_some();
    if using_ids && using_names {
        return Err(BuildError::MixedForms);
    }
    if !using_ids && !using_names {
        return Err(BuildError::NoForm);
    }
    let target_ids = match read_ints(targets) {
        Ok(values) => values,
        Err(e) => {
            return Err(BuildError::Targets(e));
        },
    };
    let input_ids = match read_ints(inputs) {
        Ok(values) => values,
        Err(e) => {
            return Err(BuildError::Inputs(e));
        },
    };
    let target_attribute_names = read_fields(target_names);
    let input_attribute_names = read_fields(input_names);
    let extra_parameters = read_params(ParamMap::new(), params);
    Ok(
        BuildContext {
            targets: target_ids,
            input_attributes: input_ids,
            input_attribute_names,
            target_attribute_names,
            extra_parameters,
        },
    )
}

impl BuildError {
    /// The message of this error.
    pub open spec fn message_text(self) -> Seq<char> {
        match self {
            BuildError::MixedForms => "Cannot mix ID-based and name-based parameters"@,
            BuildError::NoForm =>
                "Must specify either targets/inputs (IDs) or targetNames/inputNames (names)"@,
            BuildError::Targets(e) => e.message_text(),
            BuildError::Inputs(e) => e.message_text(),
        }
    }

    /// Says what is wrong with the arguments.
    pub fn message(&self) -> (r: String)
        ensures
            r@ == self.message_text(),
    {
        match self {
            BuildError::MixedForms => "Cannot mix ID-based and name-based parameters".to_owned(),
            BuildError::NoForm => {
                "Must specify either targets/inputs (IDs) or targetNames/inputNames (names)".to_owned()
            },
            BuildError::Targets(e) => e.message(),
            BuildError::Inputs(e) => e.message(),
        }
    }
}

/// What an `MLContext` holds, as text.
pub ghost struct MLContextView {
    pub targets: Option<Seq<Seq<char>>>,
    pub input_attributes: Option<Seq<Seq<char>>>,
    pub input_attribute_names: Option<Seq<Seq<char>>>,
    pub target_attribute_names: Option<Seq<Seq<char>>>,
    pub extra_parameters: Map<Seq<char>, Seq<char>>,
}

impl View for MLContext {
    type V = MLContextView;

    open spec fn view(&self) -> MLContextView {
        MLContextView {
            targets: optional_texts(self.targets),
            input_attributes: optional_texts(self.input_attributes),
            input_attribute_names: optional_texts(self.input_attribute_names),
            target_attribute_names: optional_texts(self.target_attribute_names),
            extra_parameters: self.extra_parameters@,
        }
    }
}

/// Why the arguments of an automatic selection describe no model context.
#[derive(Clone, Debug)]
pub enum ContextError {
    /// A target index is no integer.
    Targets(IntListError),
    /// An input index is no integer.
    Inputs(IntListError),
}

/// What a `ContextError` holds.
pub ghost enum ContextErrorView {
    Targets(IntListErrorView),
    Inputs(IntListErrorView),
}

impl View for ContextError {
    type V = ContextErrorView;

    open spec fn view(&self) -> ContextErrorView {
        match self {
            ContextError::Targets(e) => ContextErrorView::Targets(e@),
            ContextError::Inputs(e) => ContextErrorView::Inputs(e@),
        }
    }
}

/// The indexes of an optional comma-separated list, each checked to be an
/// integer and written in plain decimal.
pub open spec fn optional_index_texts(list: Option<Seq<char>>) -> Result<
    Option<Seq<Seq<char>>>,
    IntListErrorView,
> {
    match optional_int_list(list) {
        Err(e) => Err(e),
        Ok(None) => Ok(None),
        Ok(Some(values)) => Ok(Some(decimal_texts(values))),
    }
}

/// The model context of an automatic selection: indexes as decimal texts,
/// names as they are given, the targets read before the inputs.
pub open spec fn ml_context_of(
    targets: Option<Seq<char>>,
    inputs: Option<Seq<char>>,
    target_names: Option<Seq<char>>,
    input_names: Option<Seq<char>>,
    params: Option<Seq<char>>,
) -> Result<MLContextView, ContextErrorView> {
    match optional_index_texts(targets) {
        Err(e) => Err(ContextErrorView::Targets(e)),
        Ok(target_ids) => match optional_index_texts(inputs) {
            Err(e) => Err(ContextErrorView::Inputs(e)),
            Ok(input_ids) => Ok(
                MLContextView {
                    targets: target_ids,
                    input_attributes: input_ids,
                    input_attribute_names: optional_fields(input_names),
                    target_attribute_names: optional_fields(target_names),
                    extra_parameters: params_of(Map::empty(), params),
                },
            ),
        },
    }
}

fn read_index_texts(list: &Option<String>) -> (r: Result<Option<Vec<String>>, IntListError>)
    ensures
        match r {
            Ok(values) => Ok::<Option<Seq<Seq<char>>>, IntListErrorView>(optional_texts(values)),
            Err(e) => Err::<Option<Seq<Seq<char>>>, IntListErrorView>(e@),
        } == optional_index_texts(option_text(*list)),
{
    match list {
        None => Ok(None),
        Some(text) => match parse_int_list_as_strings(text.as_str()) {
            Ok(values) => Ok(Some(values)),
            Err(e) => Err(e),
        },
    }
}

/// Works out the model context of an automatic selection from its arguments.
pub fn ml_context(
    targets: &Option<String>,
    inputs: &Option<String>,
    target_names: &Option<String>,
    input_names: &Option<String>,
    params: &Option<String>,
) -> (r: Result<MLContext, ContextError>)
    ensures
        match r {
            Ok(context) => Ok::<MLContextView, ContextErrorView>(context@),
            Err(e) => Err::<MLContextView, ContextErrorView>(e@),
        } == ml_context_of(
            option_text(*targets),
            option_text(*inputs),
            option_text(*target_names),
            option_text(*input_names),
            option_text(*params),
        ),
{
    let target_ids = match read_index_texts(targets) {
        Ok(values) => values,
        Err(e) => {
            return Err(ContextError::Targets(e));
        },
    };
    let input_ids = match read_index_texts(inputs) {
        Ok(values) => values,
        Err(e) => {
            return Err(ContextError::Inputs(e));
        },
    };
    let target_attribute_names = read_fields(target_names);
    let input_attribute_names = read_fields(input_names);
    let extra_parameters = read_params(ParamMap::new(), params);
    Ok(
        MLContext {
            targets: target_ids,
            input_attributes: input_ids,
            input_attribute_names,
            target_attribute_names,
            extra_parameters,
        },
    )
}

impl ContextError {
    /// The message of this error.
    pub open spec fn message_text(self) -> Seq<char> {
        match self {
            ContextError::Targets(e) => e.message_text(),
            ContextError::Inputs(e) => e.message_text(),
        }
    }

    /// Says which index could not be read.
    pub fn message(&self) -> (r: String)
        ensures
            r@ == self.message_text(),
    {
        match self {
            ContextError::Targets(e) => e.message(),
            ContextError::Inputs(e) => e.message(),
        }
    }
}

/// The way that a command takes to the service.
#[derive(Clone, Copy, Debug, PartialEq, Eq, Structural)]
pub enum Transport {
    /// The command stays on this machine.
    Local,
    /// One signed HTTP call.
    Rest,
    /// One signed frame on a WebSocket.
    WebSocket,
}

/// The transport of a command. Learning and predicting go over the WebSocket
/// where the command says so; every other call to the service is REST; showing
/// the configuration calls nobody.
pub open spec fn transport_of(command: Commands) -> Transport {
    match command {
        Commands::Config => Transport::Local,
        Commands::Learn(args) => if args.use_ws {
            Transport::WebSocket
        } else {
            Transport::Rest
        },
        Commands::Predict(args) => if args.use_ws {
            Transport::WebSocket
        } else {
            Transport::Rest
        },
        _ => Transport::Rest,
    }
}

/// Decides which transport a command takes.
pub fn select_transport(command: &Commands) -> (r: Transport)
    ensures
        r == transport_of(*command),
{
    match command {
        Commands::Config => Transport::Local,
        Commands::Learn(args) => {
            if args.use_ws {
                Transport::WebSocket
            } else {
                Transport::Rest
            }
        },
        Commands::Predict(args) => {
            if args.use_ws {
                Transport::WebSocket
            } else {
                Transport::Rest
            }
        },
        _ => Transport::Rest,
    }
}

/// The REST operation that a command stands for. A build names its algorithm
/// by the model's type and its model by the model's name.
pub open spec fn rest_operation_of(command: Commands) -> Option<RestOperation> {
    match command {
        Commands::Config => None,
        Commands::Create(args) => Some(
            RestOperation::CreateProject {
                name: args.name,
                project_type: args.project_type,
                enable_histogram: args.hist,
            },
        ),
        Commands::Learn(args) => Some(RestOperation::Learn { project: args.project }),
        Commands::Build(args) => Some(
            RestOperation::Build {
                project: args.project,
                model_type: args.model_type,
                model_name: args.name,
            },
        ),
        Commands::Predict(args) => Some(
            RestOperation::Predict { project: args.project, model: args.model },
        ),
        Commands::Job(args) => Some(RestOperation::Job { id: args.id }),
    }
}

/// Names the REST operation of a command.
pub fn rest_operation(command: &Commands) -> (r: Option<RestOperation>)
    ensures
        r == rest_operation_of(*command),
{
    match command {
        Commands::Config => None,
        Commands::Create(args) => Some(
            RestOperation::CreateProject {
                name: args.name.clone(),
                project_type: args.project_type.clone(),
                enable_histogram: args.hist,
            },
        ),
        Commands::Learn(args) => Some(RestOperation::Learn { project: args.project.clone() }),
        Commands::Build(args) => Some(
            RestOperation::Build {
                project: args.project.clone(),
                model_type: args.model_type.clone(),
                model_name: args.name.clone(),
            },
        ),
        Commands::Predict(args) => Some(
            RestOperation::Predict { project: args.project.clone(), model: args.model.clone() },
        ),
        Commands::Job(args) => Some(RestOperation::Job { id: args.id.clone() }),
    }
}

/// The WebSocket operation that a command stands for: learning and
/// predicting have one.
pub open spec fn ws_operation_of(command: Commands) -> Option<WsOperation> {
    match command {
        Commands::Learn(args) => Some(WsOperation::Learn { project: args.project }),
        Commands::Predict(args) => Some(
            WsOperation::Predict { project: args.project, model: args.model },
        ),
        _ => None,
    }
}

/// Names the WebSocket operation of a command.
pub fn ws_operation(command: &Commands) -> (r: Option<WsOperation>)
    ensures
        r == ws_operation_of(*command),
{
    match command {
        Commands::Learn(args) => Some(WsOperation::Learn { project: args.project.clone() }),
        Commands::Predict(args) => Some(
            WsOperation::Predict { project: args.project.clone(), model: args.model.clone() },
        ),
        _ => None,
    }
}

/// The data frame that is learnt from: the file's table with the types that
/// the command gives, and with errors handled in the service's first way.
pub fn learn_data(args: &LearnArgs, lines: &Vec<String>) -> (r: Result<DataFrame, DataError>)
    ensures
        match r {
            Ok(frame) => Ok::<DataFrameView, DataError>(frame@),
            Err(e) => Err::<DataFrameView, DataError>(e),
        } == data_frame_of(lines.deep_view(), Some(args.types@), Some(1i32)),
{
    DataFrame::from_csv(lines, Some(args.types.as_str()), Some(1))
}

/// The data frame that predictions are asked for: the file's table, every
/// column continuous, and nothing said on errors.
pub fn prediction_data(lines: &Vec<String>) -> (r: Result<DataFrame, DataError>)
    ensures
        match r {
            Ok(frame) => Ok::<DataFrameView, DataError>(frame@),
            Err(e) => Err::<DataFrameView, DataError>(e),
        } == data_frame_of(lines.deep_view(), None, None),
{
    DataFrame::from_csv(lines, None, None)
}

/// The data frame that a selection is validated on: the file's table, every
/// column continuous, and with errors handled in the service's first way.
pub fn validation_data(lines: &Vec<String>) -> (r: Result<DataFrame, DataError>)
    ensures
        match r {
            Ok(frame) => Ok::<DataFrameView, DataError>(frame@),
            Err(e) => Err::<DataFrameView, DataError>(e),
        } == data_frame_of(lines.deep_view(), None, Some(1i32)),
{
    DataFrame::from_csv(lines, None, Some(1))
}

} // verus!
