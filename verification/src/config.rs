//! The configuration fallback policy.
//!
//! A run loads its configuration exactly once, before any document is
//! read, and every document is formatted against that one value. The
//! policy here decides where the value comes from: a configuration file
//! that could be opened and read is parsed (and a parse failure is fatal
//! to the run), while a file that could not be opened — absent or
//! inaccessible — silently falls back to the built-in default and is not
//! an error.
use vstd::prelude::*;

verus! {

/// Where the run's configuration value comes from.
pub enum ConfigPlan {
    /// No configuration file could be read: use the built-in default.
    UseDefault,
    /// A configuration file was read; parse this text. If parsing fails,
    /// the run is fatal — the caller aborts with a diagnostic instead of
    /// falling back.
    ParseFile(String),
}

/// The ghost counterpart of `ConfigPlan`.
pub enum ConfigPlanModel {
    UseDefault,
    ParseFile(Seq<char>),
}

impl View for ConfigPlan {
    type V = ConfigPlanModel;

    open spec fn view(&self) -> ConfigPlanModel {
        match self {
            ConfigPlan::UseDefault => ConfigPlanModel::UseDefault,
            ConfigPlan::ParseFile(text) => ConfigPlanModel::ParseFile(text@),
        }
    }
}

/// Decides the configuration source from what reading the configuration
/// file produced: `None` when the file could not be opened, `Some` with
/// its text when it could. The decision depends on that alone — in
/// particular, a path that names no readable file yields the same plan,
/// the built-in default, as not naming a configuration file at all.
pub fn plan_config(contents: Option<String>) -> (plan: ConfigPlan)
    ensures
        contents is None <==> plan is UseDefault,
        contents matches Some(text) ==> plan@ == ConfigPlanModel::ParseFile(text@),
{
    match contents {
        Option::None => ConfigPlan::UseDefault,
        Option::Some(text) => ConfigPlan::ParseFile(text),
    }
}

} // verus!
