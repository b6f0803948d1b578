use vstd::prelude::*;

verus! {

/// Error kinds that travel on the wire and reach callers.
#[derive(Debug, Clone)]
pub enum Error {
    /// The peer may not register under that name or connect to that client.
    NotAllowed,
    /// No such endpoint to call or subscribe to.
    NoEndpoint,
    /// The service or endpoint was registered already.
    AlreadyRegistered,
    /// The requested service was not found.
    ServiceNotFound,
    /// The peer went away, or the stream failed.
    PeerDisconnected,
    /// Call parameters could not be encoded or decoded.
    ParamsTypeError(String),
    /// A call or subscription result could not be encoded or decoded.
    ResultTypeError(String),
    /// Internal protocol failure.
    InternalError(String),
    /// The peer's handler returned an error.
    ClientError(String),
}

pub type Result<T> = core::result::Result<T, Error>;

/// An [`Error`] with its details as character sequences.
pub enum ErrorView {
    NotAllowed,
    NoEndpoint,
    AlreadyRegistered,
    ServiceNotFound,
    PeerDisconnected,
    ParamsTypeError(Seq<char>),
    ResultTypeError(Seq<char>),
    InternalError(Seq<char>),
    ClientError(Seq<char>),
}

impl View for Error {
    type V = ErrorView;

    open spec fn view(&self) -> ErrorView {
        match self {
            Error::NotAllowed => ErrorView::NotAllowed,
            Error::NoEndpoint => ErrorView::NoEndpoint,
            Error::AlreadyRegistered => ErrorView::AlreadyRegistered,
            Error::ServiceNotFound => ErrorView::ServiceNotFound,
            Error::PeerDisconnected => ErrorView::PeerDisconnected,
            Error::ParamsTypeError(d) => ErrorView::ParamsTypeError(d@),
            Error::ResultTypeError(d) => ErrorView::ResultTypeError(d@),
            Error::InternalError(d) => ErrorView::InternalError(d@),
            Error::ClientError(d) => ErrorView::ClientError(d@),
        }
    }
}

impl Error {
    /// The variant's name, as it appears on the wire.
    pub fn kind_name(&self) -> (r: &'static str)
        ensures
            r@ == self.spec_kind_name(),
    {
        match self {
            Error::NotAllowed => "NotAllowed",
            Error::NoEndpoint => "NoEndpoint",
            Error::AlreadyRegistered => "AlreadyRegistered",
            Error::ServiceNotFound => "ServiceNotFound",
            Error::PeerDisconnected => "PeerDisconnected",
            Error::ParamsTypeError(_) => "ParamsTypeError",
            Error::ResultTypeError(_) => "ResultTypeError",
            Error::InternalError(_) => "InternalError",
            Error::ClientError(_) => "ClientError",
        }
    }

    pub open spec fn spec_kind_name(&self) -> Seq<char> {
        match self {
            Error::NotAllowed => "NotAllowed"@,
            Error::NoEndpoint => "NoEndpoint"@,
            Error::AlreadyRegistered => "AlreadyRegistered"@,
            Error::ServiceNotFound => "ServiceNotFound"@,
            Error::PeerDisconnected => "PeerDisconnected"@,
            Error::ParamsTypeError(_) => "ParamsTypeError"@,
            Error::ResultTypeError(_) => "ResultTypeError"@,
            Error::InternalError(_) => "InternalError"@,
            Error::ClientError(_) => "ClientError"@,
        }
    }
}

} // verus!
