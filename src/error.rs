use vstd::prelude::*;

verus! {

/// Errors reported while looking up printers and submitting print jobs.
#[derive(Clone, Debug, PartialEq, Eq)]
pub enum PrintError {
    /// No printer with the given name could be found.
    PrinterNotFound(String),
    /// There are no printers to work with.
    NoPrinters,
    /// An input document could not be read; holds the reason.
    FileRead(String),
    /// A value could not be turned into a native string (it holds a zero byte).
    StringConversion(String),
    /// Information necessary for the operation could not be retrieved.
    NecessaryInformationMissing(String),
    /// The destination rejected an option during validation.
    UnsupportedOption { name: String, value: String },
    /// A native call failed; holds the spooler's last error message.
    Backend(String),
}

impl PrintError {
    /// True when this is the rejection of option `name` with value `value`.
    pub open spec fn is_unsupported(self, name: Seq<char>, value: Seq<char>) -> bool {
        match self {
            PrintError::UnsupportedOption { name: n, value: v } => n@ == name && v@ == value,
            _ => false,
        }
    }

    /// True when this is a native failure with the spooler's message `message`.
    pub open spec fn is_backend(self, message: Seq<char>) -> bool {
        match self {
            PrintError::Backend(m) => m@ == message,
            _ => false,
        }
    }
}

} // verus!
