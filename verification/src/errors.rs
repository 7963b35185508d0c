//! Error taxonomies: generation-time errors that abort generation, and the
//! runtime error shape returned to AppSync inside a response.
use vstd::prelude::*;
use vstd::string::StringExecFns;

verus! {

/// Fatal generation-time error raised while parsing the directive list or
/// loading the schema.
#[derive(Debug, PartialEq, Eq)]
pub enum GenError {
    /// A directive of the form `key = value` used a key that is not recognized.
    /// Carries exactly the offending key.
    UnknownOption { key: String },
    /// A directive item is neither `identifier = value` nor a client
    /// declaration `identifier() -> Type`.
    UnknownArgument,
    /// An override directive value does not match its grammar
    /// (`Type.field[.arg]: NewType` or `Type[.member]: NewName`), or an option
    /// value has the wrong shape for its key.
    MalformedOverrideSyntax,
    /// A client declaration is invalid; in particular two client accessors
    /// share one name.
    MalformedClientSpec,
    /// The first argument is not a plain quoted schema path.
    MalformedSchemaPath,
    /// The schema file could not be read; carries the resolved path and the
    /// underlying cause.
    SchemaIo { path: String, message: String },
    /// The schema text was rejected by the schema parser; carries its message.
    SchemaParse { message: String },
}

/// Runtime error carried in an AppSync response: a type tag such as
/// `"ValidationError"` and a human-readable message.
#[derive(Debug)]
pub struct AppsyncError {
    /// The type/category of the error.
    pub error_type: String,
    /// A detailed message describing the error condition.
    pub error_message: String,
}

impl AppsyncError {
    /// Creates a new error from a type tag and a message.
    pub fn new(error_type: &str, error_message: &str) -> (r: AppsyncError)
        ensures
            r.error_type@ == error_type@,
            r.error_message@ == error_message@,
    {
        AppsyncError { error_type: error_type.to_owned(), error_message: error_message.to_owned() }
    }

    /// Merges two errors into one: the type tags joined with `|`, the messages
    /// joined with a newline.
    pub fn combine(self, rhs: AppsyncError) -> (r: AppsyncError)
        ensures
            r.error_type@ == self.error_type@ + "|"@ + rhs.error_type@,
            r.error_message@ == self.error_message@ + "\n"@ + rhs.error_message@,
    {
        AppsyncError {
            error_type: self.error_type.concat("|").concat(rhs.error_type.as_str()),
            error_message: self.error_message.concat("\n").concat(rhs.error_message.as_str()),
        }
    }

    /// Builds an error from a provider-supplied code and message; an absent
    /// code becomes `"Unknown"` and an absent message becomes empty.
    pub fn from_error_metadata(code: Option<String>, message: Option<String>) -> (r: AppsyncError)
        ensures
            r.error_type@ == match code {
                Some(c) => c@,
                None => "Unknown"@,
            },
            r.error_message@ == match message {
                Some(m) => m@,
                None => Seq::<char>::empty(),
            },
    {
        AppsyncError {
            error_type: match code {
                Some(c) => c,
                None => "Unknown".to_owned(),
            },
            error_message: match message {
                Some(m) => m,
                None => String::new(),
            },
        }
    }

    /// The error returned when a named operation argument cannot be decoded
    /// into the shape the handler expects.
    pub fn invalid_args(arg_name: &str, detail: &str) -> (r: AppsyncError)
        ensures
            r.error_type@ == "InvalidArgs"@,
            r.error_message@ == "Argument \""@ + arg_name@ + "\" is not the expected format ("@
                + detail@ + ")"@,
    {
        let message = "Argument \"".to_owned().concat(arg_name).concat(
            "\" is not the expected format (",
        ).concat(detail).concat(")");
        AppsyncError { error_type: "InvalidArgs".to_owned(), error_message: message }
    }
}

} // verus!
