use vstd::prelude::*;
use vstd::string::StringExecFns;

verus! {

/// Names the field or operation a failure belongs to, so every error a caller
/// sees is locatable without inspecting raw bytes.
#[derive(Clone, Copy, Debug, PartialEq, Eq, Structural)]
pub enum Context {
    ServerSetup,
    RegistrationRequest,
    RegistrationResponse,
    ClientRegistrationState,
    RegistrationRecord,
    StartLoginRequest,
    LoginResponse,
    ClientLoginState,
    ServerLoginState,
    FinishLoginRequest,
    DeserializeServerSetup,
    DeserializeRegistrationRequest,
    StartServerRegistration,
    DeserializeClientRegistrationState,
    DeserializeRegistrationResponse,
    FinishClientRegistration,
    StartClientRegistration,
    StartClientLogin,
    DeserializeRegistrationRecord,
    DeserializeStartLoginRequest,
    StartServerLogin,
    DeserializeClientLoginState,
    DeserializeLoginResponse,
    DeserializeServerLoginState,
    DeserializeFinishLoginRequest,
    FinishServerLogin,
}

impl Context {
    /// The context label as it appears in rendered error messages.
    pub open spec fn label_spec(self) -> Seq<char> {
        match self {
            Context::ServerSetup => "serverSetup"@,
            Context::RegistrationRequest => "registrationRequest"@,
            Context::RegistrationResponse => "registrationResponse"@,
            Context::ClientRegistrationState => "clientRegistrationState"@,
            Context::RegistrationRecord => "registrationRecord"@,
            Context::StartLoginRequest => "startLoginRequest"@,
            Context::LoginResponse => "loginResponse"@,
            Context::ClientLoginState => "clientLoginState"@,
            Context::ServerLoginState => "serverLoginState"@,
            Context::FinishLoginRequest => "finishLoginRequest"@,
            Context::DeserializeServerSetup => "deserialize serverSetup"@,
            Context::DeserializeRegistrationRequest => "deserialize registrationRequest"@,
            Context::StartServerRegistration => "start serverRegistration"@,
            Context::DeserializeClientRegistrationState => "deserialize clientRegistrationState"@,
            Context::DeserializeRegistrationResponse => "deserialize registrationResponse"@,
            Context::FinishClientRegistration => "finish client registration"@,
            Context::StartClientRegistration => "start client registration"@,
            Context::StartClientLogin => "start clientLogin"@,
            Context::DeserializeRegistrationRecord => "deserialize registrationRecord"@,
            Context::DeserializeStartLoginRequest => "deserialize startLoginRequest"@,
            Context::StartServerLogin => "start server login"@,
            Context::DeserializeClientLoginState => "deserialize clientLoginState"@,
            Context::DeserializeLoginResponse => "deserialize loginResponse"@,
            Context::DeserializeServerLoginState => "deserialize serverLoginState"@,
            Context::DeserializeFinishLoginRequest => "deserialize finishLoginRequest"@,
            Context::FinishServerLogin => "finish server login"@,
        }
    }

    /// The context label as it appears in rendered error messages.
    pub fn label(self) -> (r: &'static str)
        ensures
            r@ == self.label_spec(),
    {
        match self {
            Context::ServerSetup => "serverSetup",
            Context::RegistrationRequest => "registrationRequest",
            Context::RegistrationResponse => "registrationResponse",
            Context::ClientRegistrationState => "clientRegistrationState",
            Context::RegistrationRecord => "registrationRecord",
            Context::StartLoginRequest => "startLoginRequest",
            Context::LoginResponse => "loginResponse",
            Context::ClientLoginState => "clientLoginState",
            Context::ServerLoginState => "serverLoginState",
            Context::FinishLoginRequest => "finishLoginRequest",
            Context::DeserializeServerSetup => "deserialize serverSetup",
            Context::DeserializeRegistrationRequest => "deserialize registrationRequest",
            Context::StartServerRegistration => "start serverRegistration",
            Context::DeserializeClientRegistrationState => "deserialize clientRegistrationState",
            Context::DeserializeRegistrationResponse => "deserialize registrationResponse",
            Context::FinishClientRegistration => "finish client registration",
            Context::StartClientRegistration => "start client registration",
            Context::StartClientLogin => "start clientLogin",
            Context::DeserializeRegistrationRecord => "deserialize registrationRecord",
            Context::DeserializeStartLoginRequest => "deserialize startLoginRequest",
            Context::StartServerLogin => "start server login",
            Context::DeserializeClientLoginState => "deserialize clientLoginState",
            Context::DeserializeLoginResponse => "deserialize loginResponse",
            Context::DeserializeServerLoginState => "deserialize serverLoginState",
            Context::DeserializeFinishLoginRequest => "deserialize finishLoginRequest",
            Context::FinishServerLogin => "finish server login",
        }
    }
}

/// Every failure this layer reports. An input error is a structural violation
/// by the caller; a decode error means a text field did not decode as bytes;
/// a protocol error means the engine rejected a typed protocol object or a
/// cryptographic step failed. A failed login is none of these: it is a
/// distinguished absent result of the client login finish.
#[derive(Debug)]
pub enum Error {
    Input { message: String },
    Protocol { context: Context, message: String },
    Base64 { context: Context, message: String },
}

impl Error {
    /// The single human-readable string an error renders to, always naming
    /// the failing context.
    pub open spec fn rendered(self) -> Seq<char> {
        match self {
            Error::Input { message } => message@,
            Error::Protocol { context, message } => "opaque protocol error at \""@
                + context.label_spec() + "\"; "@ + message@,
            Error::Base64 { context, message } => "base64 decoding failed at \""@
                + context.label_spec() + "\"; "@ + message@,
        }
    }

    /// Renders the error to its single human-readable string.
    pub fn render(&self) -> (r: String)
        ensures
            r@ == self.rendered(),
    {
        match self {
            Error::Input { message } => {
                let r = message.clone();
                r
            },
            Error::Protocol { context, message } => {
                let mut r = String::from_str("opaque protocol error at \"");
                r.append(context.label());
                r.append("\"; ");
                r.append(message.as_str());
                proof {
                    assert(r@ =~= self.rendered());
                }
                r
            },
            Error::Base64 { context, message } => {
                let mut r = String::from_str("base64 decoding failed at \"");
                r.append(context.label());
                r.append("\"; ");
                r.append(message.as_str());
                proof {
                    assert(r@ =~= self.rendered());
                }
                r
            },
        }
    }
}

/// Holds when an operation ended in an input error.
pub open spec fn is_input_err<T>(r: Result<T, Error>) -> bool {
    r matches Err(e) && e matches Error::Input { .. }
}

/// Holds when an operation ended in a decode error at the given context.
pub open spec fn is_b64_err<T>(r: Result<T, Error>, c: Context) -> bool {
    r matches Err(e) && e matches Error::Base64 { context, .. } && context == c
}

/// Holds when an operation ended in a protocol error at the given context.
pub open spec fn is_protocol_err<T>(r: Result<T, Error>, c: Context) -> bool {
    r matches Err(e) && e matches Error::Protocol { context, .. } && context == c
}

} // verus!
