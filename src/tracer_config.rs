use vstd::prelude::*;

verus! {

/// How a trace timestamp is written.
#[derive(Clone, Copy, Debug, PartialEq, Eq, Structural)]
pub enum TimestampType {
    /// `YYYY-MM-DD HH:MM:SS`.
    Chrono,
    /// Seconds since the Unix epoch.
    Unix,
}

/// Options for trace records; `None` leaves an option at its default.
pub struct TracerConfiguration {
    pub context_enabled: Option<bool>,
    pub timestamp_enabled: Option<bool>,
    pub timestamp_type: Option<TimestampType>,
    pub file_enabled: Option<bool>,
    pub line_enabled: Option<bool>,
    pub format: Option<String>,
}

impl TracerConfiguration {
    /// A configuration with every option left at its default.
    pub fn new() -> (r: Self)
        ensures
            r.context_enabled.is_none(),
            r.timestamp_enabled.is_none(),
            r.timestamp_type.is_none(),
            r.file_enabled.is_none(),
            r.line_enabled.is_none(),
            r.format.is_none(),
    {
        TracerConfiguration {
            context_enabled: None,
            timestamp_enabled: None,
            timestamp_type: None,
            file_enabled: None,
            line_enabled: None,
            format: None,
        }
    }
}

/// Replaces the tracer configuration held in `slot`.
pub fn set_tracer_config(slot: &mut TracerConfiguration, config: TracerConfiguration)
    ensures
        *final(slot) == config,
{
    *slot = config;
}

/// A copy of the tracer configuration held in `slot`.
pub fn get_tracer_config(slot: &TracerConfiguration) -> (r: TracerConfiguration)
    ensures
        r == *slot,
{
    let format = match &slot.format {
        Some(f) => Some(f.clone()),
        None => None,
    };
    TracerConfiguration {
        context_enabled: slot.context_enabled,
        timestamp_enabled: slot.timestamp_enabled,
        timestamp_type: slot.timestamp_type,
        file_enabled: slot.file_enabled,
        line_enabled: slot.line_enabled,
        format,
    }
}

/// A value that knows how to describe itself in a trace record.
pub trait Loggable {
    fn log_behavior(&self) -> String;
}

/// The name of a value's type, for trace records.
pub trait TypeName {
    fn name_of_type(&self) -> &'static str;
}

} // verus!
