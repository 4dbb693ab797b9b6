use ohg_bot::util::Mentionable;

#[test]
fn a_user_is_mentioned_with_an_at_sign() {
    assert_eq!(Mentionable::User(41).mention(), "<@41>");
}

#[test]
fn a_channel_is_mentioned_with_a_hash() {
    assert_eq!(Mentionable::Channel(175_928_847_299_117_063).mention(), "<#175928847299117063>");
}

#[test]
fn a_role_is_mentioned_with_an_at_sign_and_an_ampersand() {
    assert_eq!(Mentionable::Role(7).mention(), "<@&7>");
}

#[test]
fn a_symbol_is_mentioned_by_its_identity() {
    assert_eq!(Mentionable::Emoji(5, false).mention(), "<:_:5>");
    assert_eq!(Mentionable::Emoji(5, true).mention(), "<a:_:5>");
}

#[test]
fn identities_are_written_in_decimal() {
    assert_eq!(Mentionable::User(0).mention(), "<@0>");
    assert_eq!(Mentionable::User(9).mention(), "<@9>");
    assert_eq!(Mentionable::User(10).mention(), "<@10>");
    assert_eq!(Mentionable::User(1_000_000).mention(), "<@1000000>");
    assert_eq!(Mentionable::User(1_020_304_050).mention(), "<@1020304050>");
    assert_eq!(Mentionable::User(u64::MAX).mention(), "<@18446744073709551615>");
    for id in [1u64, 12, 123, 9_999, 10_001, 4_294_967_296, 987_654_321_012_345_678] {
        assert_eq!(Mentionable::User(id).mention(), format!("<@{}>", id));
    }
}
