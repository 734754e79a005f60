use vstd::prelude::*;

verus! {

/// What `#[derive(Prefix)]` reads in the `#[entid(...)]` attributes of a type, item by item.
///
/// The items of all the attributes are listed in order, each attribute beginning with
/// `NewAttribute`. Within an attribute the items are read one after the other until one cannot be
/// read (`Malformed`); the rest of that attribute is then ignored, and reading goes on with the
/// next attribute.
pub enum EntidAttrItem {
    /// The start of an `#[entid(...)]` attribute.
    NewAttribute,
    /// `prefix = <value>`: the text where the value is a string literal, else `None`.
    Prefix(Option<String>),
    /// `delimiter = <value>`: the text where the value is a string literal, else `None`.
    Delimiter(Option<String>),
    /// Another key without a value, such as `foo`: read and ignored.
    Other,
    /// Something that cannot be read: another key with a value (`foo = "x"`), `prefix` or
    /// `delimiter` without `= <value>`, a value that is not an expression, or a missing comma.
    Malformed,
}

/// The prefix and delimiter that `#[derive(Prefix)]` gives a type.
pub struct PrefixSettings {
    pub prefix: String,
    pub delimiter: String,
}

/// What reading `items` settles: the last string-literal prefix read, the last string-literal
/// delimiter read, and whether the current attribute has stopped at an item it cannot read.
pub open spec fn settle(items: Seq<EntidAttrItem>) -> (Option<Seq<char>>, Option<Seq<char>>, bool)
    decreases items.len(),
{
    if items.len() == 0 {
        (None, None, false)
    } else {
        let (p, d, stopped) = settle(items.drop_last());
        if items.last() is NewAttribute {
            (p, d, false)
        } else if stopped {
            (p, d, true)
        } else {
            match items.last() {
                EntidAttrItem::Malformed => (p, d, true),
                EntidAttrItem::Prefix(Some(x)) => (Some(x@), d, false),
                EntidAttrItem::Delimiter(Some(x)) => (p, Some(x@), false),
                _ => (p, d, false),
            }
        }
    }
}

/// The prefix that reading `items` settles on, if any.
pub open spec fn settled_prefix(items: Seq<EntidAttrItem>) -> Option<Seq<char>> {
    settle(items).0
}

/// The delimiter that reading `items` settles on, if any.
pub open spec fn settled_delimiter(items: Seq<EntidAttrItem>) -> Option<Seq<char>> {
    settle(items).1
}

/// The text held by an optional string.
pub open spec fn text_of(s: Option<String>) -> Option<Seq<char>> {
    match s {
        Some(t) => Some(t@),
        None => None,
    }
}

/// Why `#[derive(Prefix)]` refuses a type.
#[derive(Debug, PartialEq, Eq, Structural)]
pub enum PrefixDeriveError {
    /// No `#[entid(prefix = "...")]` item names the prefix, which is required.
    MissingPrefix,
}

/// The prefix and delimiter that `#[derive(Prefix)]` gives a type whose `#[entid(...)]`
/// attributes hold `items`. Where several items set the prefix (or the delimiter) to a string
/// literal, the last one read wins; items whose value is not a string literal are ignored, and so
/// are the items of an attribute after one that cannot be read. The prefix is required: without
/// one the type is refused. Without a delimiter the type gets `_`.
pub fn derive_prefix(items: &[EntidAttrItem]) -> (r: Result<PrefixSettings, PrefixDeriveError>)
    ensures
        match settled_prefix(items@) {
            Some(p) => r matches Ok(settings) && settings.prefix@ == p && settings.delimiter@ == (
            match settled_delimiter(items@) {
                Some(d) => d,
                None => seq!['_'],
            }),
            None => r == Err::<PrefixSettings, PrefixDeriveError>(PrefixDeriveError::MissingPrefix),
        },
{
    let mut prefix: Option<String> = None;
    let mut delimiter: Option<String> = None;
    let mut stopped = false;
    let mut i: usize = 0;
    while i < items.len()
        invariant
            i <= items@.len(),
            settle(items@.take(i as int)) == (text_of(prefix), text_of(delimiter), stopped),
        decreases items@.len() - i,
    {
        assert(items@.take(i as int + 1).drop_last() =~= items@.take(i as int));
        assert(items@.take(i as int + 1).last() == items@[i as int]);
        match &items[i] {
            EntidAttrItem::NewAttribute => {
                stopped = false;
            },
            EntidAttrItem::Malformed => {
                stopped = true;
            },
            EntidAttrItem::Prefix(Some(p)) => {
                if !stopped {
                    prefix = Some(p.clone());
                }
            },
            EntidAttrItem::Delimiter(Some(d)) => {
                if !stopped {
                    delimiter = Some(d.clone());
                }
            },
            _ => {},
        }
        i = i + 1;
    }
    assert(items@.take(items@.len() as int) =~= items@);
    let prefix = match prefix {
        Some(p) => p,
        None => {
            return Err(PrefixDeriveError::MissingPrefix);
        },
    };
    let delimiter = match delimiter {
        Some(d) => d,
        None => {
            proof {
                reveal_strlit("_");
            }
            String::from_str("_")
        },
    };
    Ok(PrefixSettings { prefix, delimiter })
}

/// Prefix items never change the settled delimiter, nor whether an attribute has stopped:
/// inserting a `prefix = ...` item anywhere among the items (and so also removing or moving one)
/// leaves the delimiter that the derive settles on as it was.
pub proof fn lemma_prefix_items_keep_delimiter(items: Seq<EntidAttrItem>, i: int, value: Option<String>)
    requires
        0 <= i <= items.len(),
    ensures
        settle(items.insert(i, EntidAttrItem::Prefix(value))).1 == settle(items).1,
        settle(items.insert(i, EntidAttrItem::Prefix(value))).2 == settle(items).2,
    decreases items.len(),
{
    let t = items.insert(i, EntidAttrItem::Prefix(value));
    if i == items.len() {
        assert(t.drop_last() =~= items);
    } else {
        assert(t.drop_last() =~= items.drop_last().insert(i, EntidAttrItem::Prefix(value)));
        assert(t.last() == items.last());
        lemma_prefix_items_keep_delimiter(items.drop_last(), i, value);
    }
}

/// Delimiter items never change the settled prefix, nor whether an attribute has stopped:
/// inserting a `delimiter = ...` item anywhere among the items (and so also removing or moving
/// one) leaves the prefix that the derive settles on as it was.
pub proof fn lemma_delimiter_items_keep_prefix(items: Seq<EntidAttrItem>, i: int, value: Option<String>)
    requires
        0 <= i <= items.len(),
    ensures
        settle(items.insert(i, EntidAttrItem::Delimiter(value))).0 == settle(items).0,
        settle(items.insert(i, EntidAttrItem::Delimiter(value))).2 == settle(items).2,
    decreases items.len(),
{
    let t = items.insert(i, EntidAttrItem::Delimiter(value));
    if i == items.len() {
        assert(t.drop_last() =~= items);
    } else {
        assert(t.drop_last() =~= items.drop_last().insert(i, EntidAttrItem::Delimiter(value)));
        assert(t.last() == items.last());
        lemma_delimiter_items_keep_prefix(items.drop_last(), i, value);
    }
}

/// The last string literal read wins: a `delimiter = "d"` item read after the others (in an
/// attribute that has not stopped) makes `d` the delimiter, and keeps the prefix; a
/// `prefix = "p"` item likewise makes `p` the prefix and keeps the delimiter.
pub proof fn lemma_last_literal_wins(items: Seq<EntidAttrItem>, text: String)
    requires
        !settle(items).2,
    ensures
        settled_delimiter(items.push(EntidAttrItem::Delimiter(Some(text)))) == Some(text@),
        settled_prefix(items.push(EntidAttrItem::Delimiter(Some(text)))) == settled_prefix(items),
        settled_prefix(items.push(EntidAttrItem::Prefix(Some(text)))) == Some(text@),
        settled_delimiter(items.push(EntidAttrItem::Prefix(Some(text)))) == settled_delimiter(items),
        !settle(items.push(EntidAttrItem::Delimiter(Some(text)))).2,
        !settle(items.push(EntidAttrItem::Prefix(Some(text)))).2,
{
    assert(items.push(EntidAttrItem::Delimiter(Some(text))).drop_last() =~= items);
    assert(items.push(EntidAttrItem::Prefix(Some(text))).drop_last() =~= items);
}

/// An item that cannot be read ends its attribute: the items after it up to the next attribute
/// change nothing; a new attribute is read again from its start.
pub proof fn lemma_malformed_ends_attribute(items: Seq<EntidAttrItem>, item: EntidAttrItem)
    ensures
        settle(items.push(EntidAttrItem::Malformed)) == (settle(items).0, settle(items).1, true),
        settle(items).2 && !(item is NewAttribute) ==> settle(items.push(item)) == settle(items),
        settle(items.push(EntidAttrItem::NewAttribute)) == (settle(items).0, settle(items).1, false),
{
    assert(items.push(EntidAttrItem::Malformed).drop_last() =~= items);
    assert(items.push(item).drop_last() =~= items);
    assert(items.push(EntidAttrItem::NewAttribute).drop_last() =~= items);
}

/// A single attribute naming the delimiter and the prefix, in either order, settles on both.
pub proof fn lemma_single_attribute(prefix: String, delimiter: String)
    ensures
        settle(seq![
            EntidAttrItem::NewAttribute,
            EntidAttrItem::Delimiter(Some(delimiter)),
            EntidAttrItem::Prefix(Some(prefix)),
        ]) == (Some(prefix@), Some(delimiter@), false),
        settle(seq![
            EntidAttrItem::NewAttribute,
            EntidAttrItem::Prefix(Some(prefix)),
            EntidAttrItem::Delimiter(Some(delimiter)),
        ]) == (Some(prefix@), Some(delimiter@), false),
{
    let e = Seq::<EntidAttrItem>::empty();
    let n = e.push(EntidAttrItem::NewAttribute);
    assert(settle(e) == (None::<Seq<char>>, None::<Seq<char>>, false));
    lemma_malformed_ends_attribute(e, EntidAttrItem::NewAttribute);
    let nd = n.push(EntidAttrItem::Delimiter(Some(delimiter)));
    let np = n.push(EntidAttrItem::Prefix(Some(prefix)));
    lemma_last_literal_wins(n, delimiter);
    lemma_last_literal_wins(n, prefix);
    lemma_last_literal_wins(nd, prefix);
    lemma_last_literal_wins(np, delimiter);
    assert(nd.push(EntidAttrItem::Prefix(Some(prefix))) =~= seq![
        EntidAttrItem::NewAttribute,
        EntidAttrItem::Delimiter(Some(delimiter)),
        EntidAttrItem::Prefix(Some(prefix)),
    ]);
    assert(np.push(EntidAttrItem::Delimiter(Some(delimiter))) =~= seq![
        EntidAttrItem::NewAttribute,
        EntidAttrItem::Prefix(Some(prefix)),
        EntidAttrItem::Delimiter(Some(delimiter)),
    ]);
}

} // verus!
