//! What the user asks for: one command with its arguments.

use vstd::prelude::*;

verus! {

/// The command line as a whole.
#[derive(Clone, Debug)]
pub struct Cli {
    /// Path to the configuration file
    pub config: Option<String>,
    pub command: Commands,
}

/// The commands of the client.
#[derive(Clone, Debug)]
pub enum Commands {
    /// Display the currently loaded configuration
    Config,
    /// Create a new project using REST API
    Create(CreateArgs),
    /// Learn or push data to a project using REST API or WebSocket
    Learn(LearnArgs),
    /// Create a new machine learning model using REST API
    Build(BuildArgs),
    /// Make predictions with a model using WebSocket
    Predict(PredictArgs),
    /// Check the status of an asynchronous job
    Job(JobArgs),
}

#[derive(Clone, Debug)]
pub struct CreateArgs {
    /// Name of the project
    pub name: String,
    /// Project type
    pub project_type: String,
    /// Additional parameters (key=value pairs, comma-separated)
    pub params: Option<String>,
    /// Enable histogram
    pub hist: bool,
}

#[derive(Clone, Debug)]
pub struct LearnArgs {
    /// Project name/ID
    pub project: String,
    /// Path to the dataset file
    pub file: String,
    /// Data types (comma-separated, e.g., "C,C,C,B,B")
    pub types: String,
    /// Use WebSocket for communication
    pub use_ws: bool,
}

#[derive(Clone, Debug)]
pub struct BuildArgs {
    /// Project name
    pub project: String,
    /// Name of the model
    pub name: String,
    /// Model type (algo)
    pub model_type: String,
    /// Target column IDs (comma-separated, e.g., "13" or "12,13")
    pub targets: Option<String>,
    /// Input column IDs (comma-separated, e.g., "0,1,2,3")
    pub inputs: Option<String>,
    /// Target attribute names (comma-separated, e.g., "Iris_setosa")
    pub target_names: Option<String>,
    /// Input attribute names (comma-separated)
    pub input_names: Option<String>,
    /// Model parameters (key=value pairs, comma-separated)
    pub params: Option<String>,
}

#[derive(Clone, Debug)]
pub struct PredictArgs {
    /// Project name
    pub project: String,
    /// Model name
    pub model: String,
    /// Dataframe in JSON format
    pub df: Option<String>,
    /// Path to the data file
    pub file: Option<String>,
    /// Use WebSocket for communication
    pub use_ws: bool,
}

#[derive(Clone, Debug)]
pub struct JobArgs {
    /// Job ID to check status
    pub id: String,
}

} // verus!
