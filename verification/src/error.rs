//! What can go wrong, and how it is told to the user.
use vstd::prelude::*;
use vstd::string::*;

verus! {

/// A reason for giving up.
#[derive(Debug)]
pub enum ClientError {
    /// The secret store had no password.
    PasswordMissing,
    /// The host name has no address.
    AddressNotFound,
    /// The server showed no certificate.
    CertificateMissing,
    /// The certificate could not be read.
    CertificateInvalid(String),
    /// The public key in the certificate is not a whole number of bytes.
    PublicKeyInvalid,
    /// The first part of the connection sequence failed.
    Negotiation(String),
    /// The rest of the connection sequence failed.
    Connection(String),
    /// The session could not process what the server sent.
    Stage(String),
    /// The input of the user could not be sent.
    Input(String),
    /// Reading from the server failed.
    Read(String),
    /// The server updated pixels that the image does not have.
    RegionOutsideImage,
    /// The event loop could not be set up.
    EventLoop(String),
    /// The event loop ended with an error.
    EventLoopRun(String),
}

/// The contents of a [`ClientError`].
pub enum ClientErrorView {
    PasswordMissing,
    AddressNotFound,
    CertificateMissing,
    CertificateInvalid(Seq<char>),
    PublicKeyInvalid,
    Negotiation(Seq<char>),
    Connection(Seq<char>),
    Stage(Seq<char>),
    Input(Seq<char>),
    Read(Seq<char>),
    RegionOutsideImage,
    EventLoop(Seq<char>),
    EventLoopRun(Seq<char>),
}

impl View for ClientError {
    type V = ClientErrorView;

    open spec fn view(&self) -> ClientErrorView {
        match *self {
            ClientError::PasswordMissing => ClientErrorView::PasswordMissing,
            ClientError::AddressNotFound => ClientErrorView::AddressNotFound,
            ClientError::CertificateMissing => ClientErrorView::CertificateMissing,
            ClientError::CertificateInvalid(detail) => ClientErrorView::CertificateInvalid(detail@),
            ClientError::PublicKeyInvalid => ClientErrorView::PublicKeyInvalid,
            ClientError::Negotiation(detail) => ClientErrorView::Negotiation(detail@),
            ClientError::Connection(detail) => ClientErrorView::Connection(detail@),
            ClientError::Stage(detail) => ClientErrorView::Stage(detail@),
            ClientError::Input(detail) => ClientErrorView::Input(detail@),
            ClientError::Read(detail) => ClientErrorView::Read(detail@),
            ClientError::RegionOutsideImage => ClientErrorView::RegionOutsideImage,
            ClientError::EventLoop(detail) => ClientErrorView::EventLoop(detail@),
            ClientError::EventLoopRun(detail) => ClientErrorView::EventLoopRun(detail@),
        }
    }
}

impl ClientError {
    /// What the user is told.
    pub open spec fn text(self) -> Seq<char> {
        match self {
            ClientError::PasswordMissing => "Kein Passwort in secret-tool gefunden"@,
            ClientError::AddressNotFound => "Adresse nicht gefunden"@,
            ClientError::CertificateMissing => "Kein Server-Zertifikat empfangen"@,
            ClientError::CertificateInvalid(detail) => detail@,
            ClientError::PublicKeyInvalid => "Ungültiger Public Key"@,
            ClientError::Negotiation(detail) => "Verbindungsfehler: "@ + detail@,
            ClientError::Connection(detail) => "Verbindungsaufbau fehlgeschlagen: "@ + detail@,
            ClientError::Stage(detail) => "ActiveStage-Fehler: "@ + detail@,
            ClientError::Input(detail) => "Input-Fehler: "@ + detail@,
            ClientError::Read(detail) => detail@,
            ClientError::RegionOutsideImage => "region outside the image"@,
            ClientError::EventLoop(detail) => "EventLoop: "@ + detail@,
            ClientError::EventLoopRun(detail) => "EventLoop-Error: "@ + detail@,
        }
    }

    /// What the user is told.
    pub fn message(&self) -> (message: String)
        ensures
            message@ == self.text(),
    {
        match self {
            ClientError::PasswordMissing => "Kein Passwort in secret-tool gefunden".to_owned(),
            ClientError::AddressNotFound => "Adresse nicht gefunden".to_owned(),
            ClientError::CertificateMissing => "Kein Server-Zertifikat empfangen".to_owned(),
            ClientError::CertificateInvalid(detail) => detail.clone(),
            ClientError::PublicKeyInvalid => "Ungültiger Public Key".to_owned(),
            ClientError::Negotiation(detail) => prefixed("Verbindungsfehler: ", detail),
            ClientError::Connection(detail) => prefixed(
                "Verbindungsaufbau fehlgeschlagen: ",
                detail,
            ),
            ClientError::Stage(detail) => prefixed("ActiveStage-Fehler: ", detail),
            ClientError::Input(detail) => prefixed("Input-Fehler: ", detail),
            ClientError::Read(detail) => detail.clone(),
            ClientError::RegionOutsideImage => "region outside the image".to_owned(),
            ClientError::EventLoop(detail) => prefixed("EventLoop: ", detail),
            ClientError::EventLoopRun(detail) => prefixed("EventLoop-Error: ", detail),
        }
    }
}

/// A text after a prefix.
pub(crate) fn prefixed(prefix: &str, text: &str) -> (joined: String)
    ensures
        joined@ == prefix@ + text@,
{
    prefix.to_owned().concat(text)
}

/// An error with a detail is told by the words for its kind and then the detail, all of it and as
/// it is; the errors of a certificate and of reading are told by the detail alone.
pub proof fn details_are_told_in_full(detail: String)
    ensures
        ClientError::CertificateInvalid(detail).text() == detail@,
        ClientError::Read(detail).text() == detail@,
        ends_with(ClientError::Negotiation(detail).text(), "Verbindungsfehler: "@, detail@),
        ends_with(
            ClientError::Connection(detail).text(),
            "Verbindungsaufbau fehlgeschlagen: "@,
            detail@,
        ),
        ends_with(ClientError::Stage(detail).text(), "ActiveStage-Fehler: "@, detail@),
        ends_with(ClientError::Input(detail).text(), "Input-Fehler: "@, detail@),
        ends_with(ClientError::EventLoop(detail).text(), "EventLoop: "@, detail@),
        ends_with(ClientError::EventLoopRun(detail).text(), "EventLoop-Error: "@, detail@),
{
}

/// Whether a text is the given words followed by the given detail.
pub open spec fn ends_with(text: Seq<char>, words: Seq<char>, detail: Seq<char>) -> bool {
    &&& text.len() == words.len() + detail.len()
    &&& forall|i: int| 0 <= i < words.len() ==> #[trigger] text[i] == words[i]
    &&& forall|i: int| 0 <= i < detail.len() ==> #[trigger] text[words.len() + i] == detail[i]
}

/// The view of an error holds what the error holds.
pub proof fn error_views_are_faithful(error: ClientError)
    ensures
        error is PasswordMissing <==> error@ is PasswordMissing,
        error is AddressNotFound <==> error@ is AddressNotFound,
        error is CertificateMissing <==> error@ is CertificateMissing,
        error is PublicKeyInvalid <==> error@ is PublicKeyInvalid,
        error is RegionOutsideImage <==> error@ is RegionOutsideImage,
        error is CertificateInvalid ==> error@ is CertificateInvalid
            && error@->CertificateInvalid_0 == error->CertificateInvalid_0@,
        error is Negotiation ==> error@ is Negotiation && error@->Negotiation_0
            == error->Negotiation_0@,
        error is Connection ==> error@ is Connection && error@->Connection_0
            == error->Connection_0@,
        error is Stage ==> error@ is Stage && error@->Stage_0 == error->Stage_0@,
        error is Input ==> error@ is Input && error@->Input_0 == error->Input_0@,
        error is Read ==> error@ is Read && error@->Read_0 == error->Read_0@,
        error is EventLoop ==> error@ is EventLoop && error@->EventLoop_0 == error->EventLoop_0@,
        error is EventLoopRun ==> error@ is EventLoopRun && error@->EventLoopRun_0
            == error->EventLoopRun_0@,
{
}

} // verus!
