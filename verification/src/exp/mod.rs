//! Experiments: scenarios whose tools hold the state of a task and know
//! when it is accomplished, the traces of the runs and their analysis.

/// Evaluation of the runs
pub mod evaluate;
/// Tools that update the state of a scenario
pub mod tools;
/// Traces of the runs
pub mod traces;
