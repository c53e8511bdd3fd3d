use solana_launchpad::account::{pad_ido_name, trim_ascii_whitespace};

#[test]
fn pad_fills_with_trailing_spaces() {
    assert_eq!(&pad_ido_name(b"melon"), b"melon     ");
    assert_eq!(&pad_ido_name(b""), b"          ");
    assert_eq!(&pad_ido_name(b"exactlyten"), b"exactlyten");
}

#[test]
fn trim_strips_both_ends() {
    assert_eq!(trim_ascii_whitespace(b"  melon \t\r\n"), b"melon");
    assert_eq!(trim_ascii_whitespace(b"melon"), b"melon");
    assert_eq!(trim_ascii_whitespace(b"a b"), b"a b");
}

#[test]
fn trim_of_all_whitespace_is_empty() {
    assert_eq!(trim_ascii_whitespace(b" \t \n "), b"");
    assert_eq!(trim_ascii_whitespace(b""), b"");
}

#[test]
fn trim_undoes_padding() {
    let padded = pad_ido_name(b"sale");
    assert_eq!(trim_ascii_whitespace(&padded), b"sale");
}
