use vstd::prelude::*;
use vstd::string::StringExecFns;

verus! {

/// Why a settings value could not be produced.
#[derive(Debug, Clone, PartialEq, Eq)]
pub enum SettingsError {
    /// The configuration variable could not be read.
    EnvironmentError { detail: String },
    /// The blob is not JSON, or does not hold the settings schema.
    ///
    /// For a text that is not JSON, `detail` is the parser's own message,
    /// with line and column. For a required key that is missing or holds no
    /// JSON string, `detail` is worded by this library: it names the key
    /// and carries no position.
    ParseError { detail: String },
}

/// Mathematical model of a [`SettingsError`].
pub enum ErrorModel {
    EnvironmentError { detail: Seq<char> },
    ParseError { detail: Seq<char> },
}

impl View for SettingsError {
    type V = ErrorModel;

    open spec fn view(&self) -> ErrorModel {
        match self {
            SettingsError::EnvironmentError { detail } => ErrorModel::EnvironmentError {
                detail: detail@,
            },
            SettingsError::ParseError { detail } => ErrorModel::ParseError { detail: detail@ },
        }
    }
}

/// What precedes the cause in the message of an environment error.
pub open spec fn environment_prefix() -> Seq<char> {
    "Error getting env variable: "@
}

/// What precedes the cause in the message of a parse error.
pub open spec fn parse_prefix() -> Seq<char> {
    "Could not deserialize settings blob: "@
}

impl ErrorModel {
    /// The cause that the error carries.
    pub open spec fn detail(self) -> Seq<char> {
        match self {
            ErrorModel::EnvironmentError { detail } => detail,
            ErrorModel::ParseError { detail } => detail,
        }
    }

    /// The human-readable message: the prefix of the kind, then the cause.
    pub open spec fn message(self) -> Seq<char> {
        match self {
            ErrorModel::EnvironmentError { detail } => environment_prefix() + detail,
            ErrorModel::ParseError { detail } => parse_prefix() + detail,
        }
    }
}

impl SettingsError {
    /// The cause that the error carries, without the prefix of its kind.
    pub fn detail(&self) -> (text: &str)
        ensures
            text@ == self@.detail(),
    {
        match self {
            SettingsError::EnvironmentError { detail } => detail.as_str(),
            SettingsError::ParseError { detail } => detail.as_str(),
        }
    }

    /// Renders the error as text for presentation.
    pub fn message(&self) -> (text: String)
        ensures
            text@ == self@.message(),
    {
        match self {
            SettingsError::EnvironmentError { detail } => {
                String::from_str("Error getting env variable: ").concat(detail.as_str())
            },
            SettingsError::ParseError { detail } => {
                String::from_str("Could not deserialize settings blob: ").concat(detail.as_str())
            },
        }
    }
}

/// The message tells the error: two errors with the same message are of
/// the same kind and carry the same cause.
pub proof fn lemma_message_tells_error(a: ErrorModel, b: ErrorModel)
    requires
        a.message() == b.message(),
    ensures
        a == b,
{
    reveal_strlit("Error getting env variable: ");
    reveal_strlit("Could not deserialize settings blob: ");
    let ea = environment_prefix();
    let pa = parse_prefix();
    assert(ea[0] == 'E' && pa[0] == 'C');
    assert((ea + a.detail())[0] == 'E' && (pa + a.detail())[0] == 'C');
    assert((ea + b.detail())[0] == 'E' && (pa + b.detail())[0] == 'C');
    if a is EnvironmentError {
        assert(b is EnvironmentError);
        assert(a.detail() =~= (ea + a.detail()).skip(ea.len() as int));
        assert(b.detail() =~= (ea + b.detail()).skip(ea.len() as int));
    } else {
        assert(b is ParseError);
        assert(a.detail() =~= (pa + a.detail()).skip(pa.len() as int));
        assert(b.detail() =~= (pa + b.detail()).skip(pa.len() as int));
    }
}

} // verus!
