use rdp_client::address::first_address;
use rdp_client::error::ClientError;

#[test]
fn every_error_is_told_in_its_words() {
    let detail = || String::from("x");
    let told = [
        (ClientError::PasswordMissing, "Kein Passwort in secret-tool gefunden"),
        (ClientError::AddressNotFound, "Adresse nicht gefunden"),
        (ClientError::CertificateMissing, "Kein Server-Zertifikat empfangen"),
        (ClientError::CertificateInvalid(detail()), "x"),
        (ClientError::PublicKeyInvalid, "Ungültiger Public Key"),
        (ClientError::Negotiation(detail()), "Verbindungsfehler: x"),
        (ClientError::Connection(detail()), "Verbindungsaufbau fehlgeschlagen: x"),
        (ClientError::Stage(detail()), "ActiveStage-Fehler: x"),
        (ClientError::Input(detail()), "Input-Fehler: x"),
        (ClientError::Read(detail()), "x"),
        (ClientError::RegionOutsideImage, "region outside the image"),
        (ClientError::EventLoop(detail()), "EventLoop: x"),
        (ClientError::EventLoopRun(detail()), "EventLoop-Error: x"),
    ];
    for (error, text) in told {
        assert_eq!(error.message(), text);
    }
}

#[test]
fn the_first_address_is_taken() {
    let address = first_address(vec!["10.0.0.1", "10.0.0.2"]).expect("there are addresses");
    assert_eq!(address, "10.0.0.1");
}

#[test]
fn a_host_without_an_address_is_not_found() {
    let addresses: Vec<u32> = Vec::new();
    assert!(matches!(first_address(addresses), Err(ClientError::AddressNotFound)));
}
