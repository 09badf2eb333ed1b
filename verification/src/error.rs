//! The failure that an analysis reports when it is handed too little data.

use vstd::prelude::*;
use vstd::string::*;

verus! {

/// The message of the failure raised when a fit is asked of fewer than two
/// observations.
pub open spec fn insufficient_data_text() -> Seq<char> {
    "Dados insuficientes para regressão linear"@
}

/// The message of the failure raised when statistics are asked of an empty
/// series.
pub open spec fn empty_data_text() -> Seq<char> {
    "Dados vazios para cálculo de estatísticas"@
}

/// The prefix that `to_string` puts before the message.
pub open spec fn error_prefix() -> Seq<char> {
    "TimeSeriesError: "@
}

/// A failed analysis, told by its message.
#[derive(Debug, Clone)]
pub struct TimeSeriesError {
    message: String,
}

impl View for TimeSeriesError {
    type V = Seq<char>;

    /// The message, as a sequence of characters.
    closed spec fn view(&self) -> Seq<char> {
        self.message@
    }
}

impl TimeSeriesError {
    /// A failure that carries `msg`.
    pub fn new(msg: &str) -> (err: Self)
        ensures
            err@ == msg@,
    {
        TimeSeriesError { message: msg.to_owned() }
    }

    /// The failure of a fit that was given fewer than two observations.
    pub fn insufficient_data() -> (err: Self)
        ensures
            err@ == insufficient_data_text(),
    {
        TimeSeriesError::new("Dados insuficientes para regressão linear")
    }

    /// The failure of statistics that were given no observation.
    pub fn empty_data() -> (err: Self)
        ensures
            err@ == empty_data_text(),
    {
        TimeSeriesError::new("Dados vazios para cálculo de estatísticas")
    }

    /// The message that the failure carries.
    pub fn message(&self) -> (msg: &str)
        ensures
            msg@ == self@,
    {
        self.message.as_str()
    }

    /// The failure as it is shown to a reader: the prefix, then the message.
    pub fn to_string(&self) -> (text: String)
        ensures
            text@ == error_prefix() + self@,
    {
        let mut text = "TimeSeriesError: ".to_owned();
        text.append(self.message.as_str());
        text
    }
}

} // verus!
