//! The failures that reach the host, each with a machine tag and a message.

use vstd::prelude::*;

verus! {

/// Everything that can go wrong between the host and the manifest engine.
#[derive(Debug, Clone, PartialEq, Eq)]
pub enum Error {
    /// A host value could not be decoded as bytes.
    InputDecode,
    /// The signature algorithm's name is not one of the seven known names.
    UnsupportedAlgorithm,
    /// An assertion's value was not valid JSON.
    AssertionParse,
    /// The manifest engine refused an assertion.
    ManifestAssertion,
    /// The manifest engine refused the thumbnail.
    ManifestThumbnail,
    /// The manifest engine could not embed the signed manifest.
    ManifestEmbed,
    /// The manifest engine could not read a manifest store.
    ManifestRead,
    /// The manifest is not embedded: it has to be fetched from this URL.
    RemoteManifestUrl(String),
    /// A host callback rejected, or resolved with something that is no byte buffer.
    CallbackFailure,
    /// The time-stamp request could not be DER encoded.
    TimestampEncode,
    /// A fulfilled host value did not have the expected shape.
    HostConversion,
}

/// The mathematical value of an [`Error`]: the same kinds, the URL as a
/// sequence of characters.
pub enum ErrorView {
    InputDecode,
    UnsupportedAlgorithm,
    AssertionParse,
    ManifestAssertion,
    ManifestThumbnail,
    ManifestEmbed,
    ManifestRead,
    RemoteManifestUrl(Seq<char>),
    CallbackFailure,
    TimestampEncode,
    HostConversion,
}

impl View for Error {
    type V = ErrorView;

    open spec fn view(&self) -> ErrorView {
        match self {
            Error::InputDecode => ErrorView::InputDecode,
            Error::UnsupportedAlgorithm => ErrorView::UnsupportedAlgorithm,
            Error::AssertionParse => ErrorView::AssertionParse,
            Error::ManifestAssertion => ErrorView::ManifestAssertion,
            Error::ManifestThumbnail => ErrorView::ManifestThumbnail,
            Error::ManifestEmbed => ErrorView::ManifestEmbed,
            Error::ManifestRead => ErrorView::ManifestRead,
            Error::RemoteManifestUrl(url) => ErrorView::RemoteManifestUrl(url@),
            Error::CallbackFailure => ErrorView::CallbackFailure,
            Error::TimestampEncode => ErrorView::TimestampEncode,
            Error::HostConversion => ErrorView::HostConversion,
        }
    }
}

/// The machine tag of each kind of error.
pub open spec fn tag_of(e: ErrorView) -> Seq<char> {
    match e {
        ErrorView::InputDecode => "Toolkit(InputDecode)"@,
        ErrorView::UnsupportedAlgorithm => "Toolkit(UnsupportedAlgorithm)"@,
        ErrorView::AssertionParse => "Toolkit(AssertionParse)"@,
        ErrorView::ManifestAssertion => "Toolkit(ManifestAssertion)"@,
        ErrorView::ManifestThumbnail => "Toolkit(ManifestThumbnail)"@,
        ErrorView::ManifestEmbed => "Toolkit(ManifestEmbed)"@,
        ErrorView::ManifestRead => "Toolkit(ManifestRead)"@,
        ErrorView::RemoteManifestUrl(_) => "Toolkit(RemoteManifestUrl)"@,
        ErrorView::CallbackFailure => "Toolkit(CallbackFailure)"@,
        ErrorView::TimestampEncode => "Toolkit(TimestampEncode)"@,
        ErrorView::HostConversion => "Toolkit(HostConversion)"@,
    }
}

/// The human-readable message of each kind of error.
pub open spec fn message_of(e: ErrorView) -> Seq<char> {
    match e {
        ErrorView::InputDecode => "could not decode the input as bytes"@,
        ErrorView::UnsupportedAlgorithm => "unsupported signature algorithm"@,
        ErrorView::AssertionParse => "an assertion value is not valid JSON"@,
        ErrorView::ManifestAssertion => "could not add an assertion to the manifest"@,
        ErrorView::ManifestThumbnail => "could not set the manifest thumbnail"@,
        ErrorView::ManifestEmbed => "could not embed the signed manifest"@,
        ErrorView::ManifestRead => "could not read the manifest store"@,
        ErrorView::RemoteManifestUrl(_) => "must fetch remote manifests from url"@,
        ErrorView::CallbackFailure => "a host callback failed"@,
        ErrorView::TimestampEncode => "could not encode the time-stamp request"@,
        ErrorView::HostConversion => "could not convert a host value"@,
    }
}

/// The URL that an error carries: only a remote manifest reference has one.
pub open spec fn url_of(e: ErrorView) -> Option<Seq<char>> {
    match e {
        ErrorView::RemoteManifestUrl(url) => Some(url),
        _ => None,
    }
}

/// What the host is handed for an error: a name to switch on, a message to
/// show, and the URL to follow where the manifest lives elsewhere.
pub struct ErrorEnvelope {
    pub name: String,
    pub message: String,
    pub url: Option<String>,
}

impl Error {
    /// The machine tag: `Toolkit(` kind `)`.
    pub fn tag(&self) -> (out: &'static str)
        ensures
            out@ == tag_of(self@),
    {
        match self {
            Error::InputDecode => "Toolkit(InputDecode)",
            Error::UnsupportedAlgorithm => "Toolkit(UnsupportedAlgorithm)",
            Error::AssertionParse => "Toolkit(AssertionParse)",
            Error::ManifestAssertion => "Toolkit(ManifestAssertion)",
            Error::ManifestThumbnail => "Toolkit(ManifestThumbnail)",
            Error::ManifestEmbed => "Toolkit(ManifestEmbed)",
            Error::ManifestRead => "Toolkit(ManifestRead)",
            Error::RemoteManifestUrl(_) => "Toolkit(RemoteManifestUrl)",
            Error::CallbackFailure => "Toolkit(CallbackFailure)",
            Error::TimestampEncode => "Toolkit(TimestampEncode)",
            Error::HostConversion => "Toolkit(HostConversion)",
        }
    }

    /// The message shown to a person.
    pub fn message(&self) -> (out: &'static str)
        ensures
            out@ == message_of(self@),
    {
        match self {
            Error::InputDecode => "could not decode the input as bytes",
            Error::UnsupportedAlgorithm => "unsupported signature algorithm",
            Error::AssertionParse => "an assertion value is not valid JSON",
            Error::ManifestAssertion => "could not add an assertion to the manifest",
            Error::ManifestThumbnail => "could not set the manifest thumbnail",
            Error::ManifestEmbed => "could not embed the signed manifest",
            Error::ManifestRead => "could not read the manifest store",
            Error::RemoteManifestUrl(_) => "must fetch remote manifests from url",
            Error::CallbackFailure => "a host callback failed",
            Error::TimestampEncode => "could not encode the time-stamp request",
            Error::HostConversion => "could not convert a host value",
        }
    }

    /// The URL to follow, for a manifest that is referenced and not embedded.
    pub fn url(&self) -> (out: Option<String>)
        ensures
            out is Some <==> self is RemoteManifestUrl,
            out matches Some(u) ==> url_of(self@) == Some(u@),
    {
        match self {
            Error::RemoteManifestUrl(url) => Some(url.clone()),
            _ => None,
        }
    }

    /// The envelope that the host receives for this error.
    pub fn envelope(&self) -> (out: ErrorEnvelope)
        ensures
            out.name@ == tag_of(self@),
            out.message@ == message_of(self@),
            out.url is Some <==> self is RemoteManifestUrl,
            out.url matches Some(u) ==> url_of(self@) == Some(u@),
    {
        ErrorEnvelope {
            name: self.tag().to_owned(),
            message: self.message().to_owned(),
            url: self.url(),
        }
    }
}

} // verus!
