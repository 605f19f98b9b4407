//! Errors of the system-integration layer.
use vstd::prelude::*;

verus! {

/// System integration errors, each carrying a message.
#[derive(Debug, Clone, PartialEq, Eq)]
pub enum IntegrationError {
    DataManager(String),
    Renderer(String),
    Configuration(String),
    Lifecycle(String),
    Bridge(String),
    Recovery(String),
}

/// The user-facing text of an error: a prefix naming the subsystem, then the message.
pub open spec fn error_text(e: IntegrationError) -> Seq<char> {
    match e {
        IntegrationError::DataManager(m) => "Data manager error: "@ + m@,
        IntegrationError::Renderer(m) => "Renderer error: "@ + m@,
        IntegrationError::Configuration(m) => "Configuration error: "@ + m@,
        IntegrationError::Lifecycle(m) => "Lifecycle error: "@ + m@,
        IntegrationError::Bridge(m) => "Bridge error: "@ + m@,
        IntegrationError::Recovery(m) => "Recovery error: "@ + m@,
    }
}

impl IntegrationError {
    /// The error's text, as shown to users.
    pub fn to_text(&self) -> (r: String)
        ensures
            r@ == error_text(*self),
    {
        let (prefix, msg) = match self {
            IntegrationError::DataManager(m) => ("Data manager error: ", m),
            IntegrationError::Renderer(m) => ("Renderer error: ", m),
            IntegrationError::Configuration(m) => ("Configuration error: ", m),
            IntegrationError::Lifecycle(m) => ("Lifecycle error: ", m),
            IntegrationError::Bridge(m) => ("Bridge error: ", m),
            IntegrationError::Recovery(m) => ("Recovery error: ", m),
        };
        let mut r = String::from_str(prefix);
        r.append(msg.as_str());
        r
    }
}

} // verus!
