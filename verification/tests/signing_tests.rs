use ya_player::api::{AccountStatus, ApiError};
use ya_player::download::{
    build_signed_mp3_url, parse_download_xml, signed_url_from_digest, signing_input,
};
use ya_player::presentation::{account_initial_letters, account_initials};

#[test]
fn the_signed_text_drops_one_leading_slash() {
    assert_eq!(signing_input("/music/track.mp3", "abc"), "XGRlBW9FXlekgbPrRHuSiAmusic/track.mp3abc");
    assert_eq!(signing_input("//x", "s"), "XGRlBW9FXlekgbPrRHuSiA/xs");
    assert_eq!(signing_input("x", ""), "XGRlBW9FXlekgbPrRHuSiAx");
}

#[test]
fn the_mp3_address_keeps_the_full_path() {
    assert_eq!(
        signed_url_from_digest("host.example", "0123abcd", "77", "/a/b.mp3"),
        "https://host.example/get-mp3/0123abcd/77/a/b.mp3"
    );
}

#[test]
fn signed_addresses_use_the_digest_of_the_signed_text() {
    let url = build_signed_mp3_url("h", "/p", "s", "1");
    assert!(url.starts_with("https://h/get-mp3/"));
    assert!(url.ends_with("/1/p"));
    let digest = &url["https://h/get-mp3/".len()..url.len() - "/1/p".len()];
    assert_eq!(digest.len(), 32);
    assert!(digest.chars().all(|c| c.is_ascii_hexdigit() && !c.is_ascii_uppercase()));
    assert_ne!(digest, signing_input("/p", "s"));
    assert_ne!(build_signed_mp3_url("h", "/p", "t", "1"), url);
}

#[test]
fn download_xml_names_the_missing_tag_and_trims_values() {
    assert!(matches!(
        parse_download_xml("<path>/p</path><s>s</s><ts>1</ts>"),
        Err(ApiError::MissingField("host"))
    ));
    assert!(matches!(
        parse_download_xml("<host>h</host><path>/p<s>s</s><ts>1</ts>"),
        Err(ApiError::MissingField("path"))
    ));
    assert!(matches!(
        parse_download_xml("<host>h</host><path>/p</path><ts>1</ts>"),
        Err(ApiError::MissingField("s"))
    ));
    assert!(matches!(
        parse_download_xml("<host>h</host><path>/p</path><s>s</s>"),
        Err(ApiError::MissingField("ts"))
    ));
    let info = parse_download_xml("<host> h </host><path>\n/p\n</path><s>s</s><ts>1</ts>")
        .expect("parts");
    assert_eq!(info.host, "h");
    assert_eq!(info.path, "/p");
}

fn account(login: &str, display_name: &str) -> AccountStatus {
    AccountStatus {
        uid: 1,
        login: login.to_owned(),
        display_name: display_name.to_owned(),
    }
}

#[test]
fn initial_letters_come_from_the_first_two_words() {
    assert_eq!(account_initial_letters(&account("x", "  john ronald\ttolkien ")), "jr");
    assert_eq!(account_initial_letters(&account("demo user", " \n ")), "du");
    assert_eq!(account_initial_letters(&account("", "")), "");
    assert_eq!(account_initials(&account("", "")), "Я");
    assert_eq!(account_initials(&account("x", "ёжик в тумане")), "ЁВ");
}
