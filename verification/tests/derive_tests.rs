use entid::{derive_prefix, EntidAttrItem, PrefixDeriveError};

fn text(s: &str) -> Option<String> {
    Some(s.to_string())
}

#[test]
fn derive_with_prefix_and_delimiter() {
    let user = derive_prefix(&[EntidAttrItem::NewAttribute, EntidAttrItem::Prefix(text("user")), EntidAttrItem::Delimiter(text("_"))]).unwrap();
    assert_eq!(user.prefix, "user");
    assert_eq!(user.delimiter, "_");
    let post = derive_prefix(&[EntidAttrItem::NewAttribute, EntidAttrItem::Prefix(text("post")), EntidAttrItem::Delimiter(text("-"))]).unwrap();
    assert_eq!(post.prefix, "post");
    assert_eq!(post.delimiter, "-");
}

#[test]
fn derive_delimiter_defaults_to_underscore() {
    let comment = derive_prefix(&[EntidAttrItem::NewAttribute, EntidAttrItem::Prefix(text("comment"))]).unwrap();
    assert_eq!(comment.prefix, "comment");
    assert_eq!(comment.delimiter, "_");
}

#[test]
fn derive_refuses_a_missing_prefix() {
    assert_eq!(derive_prefix(&[]).err(), Some(PrefixDeriveError::MissingPrefix));
    assert_eq!(
        derive_prefix(&[EntidAttrItem::Delimiter(text(":"))]).err(),
        Some(PrefixDeriveError::MissingPrefix)
    );
}

#[test]
fn derive_ignores_non_literal_values_and_other_keys() {
    let refused = derive_prefix(&[EntidAttrItem::NewAttribute, EntidAttrItem::Prefix(None), EntidAttrItem::Other, EntidAttrItem::Delimiter(None)]);
    assert_eq!(refused.err(), Some(PrefixDeriveError::MissingPrefix));
    let settings = derive_prefix(&[
        EntidAttrItem::NewAttribute,
        EntidAttrItem::Prefix(text("order")),
        EntidAttrItem::Other,
        EntidAttrItem::Delimiter(None),
    ])
    .unwrap();
    assert_eq!(settings.prefix, "order");
    assert_eq!(settings.delimiter, "_");
}

#[test]
fn derive_last_literal_wins() {
    let settings = derive_prefix(&[
        EntidAttrItem::NewAttribute,
        EntidAttrItem::Prefix(text("a")),
        EntidAttrItem::NewAttribute,
        EntidAttrItem::Delimiter(text("-")),
        EntidAttrItem::Prefix(text("b")),
        EntidAttrItem::Prefix(None),
        EntidAttrItem::Delimiter(text(".")),
        EntidAttrItem::Other,
    ])
    .unwrap();
    assert_eq!(settings.prefix, "b");
    assert_eq!(settings.delimiter, ".");
}

#[test]
fn derive_stops_an_attribute_at_an_item_it_cannot_read() {
    // #[entid(foo = "x", prefix = "user")]: the prefix is never read
    let refused = derive_prefix(&[
        EntidAttrItem::NewAttribute,
        EntidAttrItem::Malformed,
        EntidAttrItem::Prefix(text("user")),
    ]);
    assert_eq!(refused.err(), Some(PrefixDeriveError::MissingPrefix));
    // #[entid(prefix = "user", foo = "x", delimiter = "-")] #[entid(delimiter = ":")]
    let settings = derive_prefix(&[
        EntidAttrItem::NewAttribute,
        EntidAttrItem::Prefix(text("user")),
        EntidAttrItem::Malformed,
        EntidAttrItem::Delimiter(text("-")),
        EntidAttrItem::NewAttribute,
        EntidAttrItem::Delimiter(text(":")),
    ])
    .unwrap();
    assert_eq!(settings.prefix, "user");
    assert_eq!(settings.delimiter, ":");
    // the next attribute is read again after a stop
    let later = derive_prefix(&[
        EntidAttrItem::NewAttribute,
        EntidAttrItem::Malformed,
        EntidAttrItem::Delimiter(text("-")),
        EntidAttrItem::NewAttribute,
        EntidAttrItem::Prefix(text("post")),
    ])
    .unwrap();
    assert_eq!(later.prefix, "post");
    assert_eq!(later.delimiter, "_");
}
