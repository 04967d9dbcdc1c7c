use rdp_client::error::ClientError;
use rdp_client::password::{password_from_output, secret_tool_arguments, trim};

#[test]
fn the_secret_store_is_asked_for_the_user() {
    assert_eq!(
        secret_tool_arguments(),
        ["lookup", "service", "freerdp", "host", "192.168.122.56", "user", "ardit"]
    );
}

#[test]
fn white_space_is_trimmed_at_both_ends() {
    assert_eq!(trim("  a b \t\r\n"), "a b");
    assert_eq!(trim("a"), "a");
    assert_eq!(trim(""), "");
    assert_eq!(trim(" \n\t "), "");
    assert_eq!(trim("\u{a0}\u{2003}ü\u{3000}\u{85}"), "ü");
    assert_eq!(trim("\u{200b}x\u{feff}"), "\u{200b}x\u{feff}");
}

#[test]
fn trimming_is_that_of_the_standard_library() {
    for code in 0..=0x10FFFF {
        if let Some(c) = char::from_u32(code) {
            let text = format!("{c}x{c}");
            assert_eq!(trim(&text).len() < text.len(), c.is_whitespace());
            assert_eq!(trim(&text), text.trim());
        }
    }
}

#[test]
fn trimming_twice_changes_nothing_more() {
    let once = trim("\t geheim \n");
    assert_eq!(trim(&once), once);
}

#[test]
fn the_password_is_what_was_printed() {
    let password = password_from_output(b" Geheim 1!\n").expect("there is a password");
    assert_eq!(password, "Geheim 1!");
    let accented = password_from_output("pässwört\n".as_bytes()).expect("there is a password");
    assert_eq!(accented, "pässwört");
}

#[test]
fn what_is_not_text_is_replaced() {
    let password = password_from_output(b"a\xFFb\n").expect("there is a password");
    assert_eq!(password, "a\u{FFFD}b");
}

#[test]
fn no_password_is_an_error() {
    assert!(matches!(password_from_output(b""), Err(ClientError::PasswordMissing)));
    assert!(matches!(password_from_output(b" \n"), Err(ClientError::PasswordMissing)));
}
