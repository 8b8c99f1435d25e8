//! The plaintext of a vault: a JSON object that holds an integrity marker
//! under `_pwcheck` and the list of entries under `entries`.
//!
//! ```text
//! {"_pwcheck":"valid","entries":[{"identifier":"..","password":"..","username":".."}]}
//! ```

use crate::helpers::errors::FortressError;
use crate::helpers::structs::{entry_views, EntryView, PasswordEntry};
use crate::json::{
    json_parsed, json_tree, json_trees, json_written, keys_distinct, max_nesting, new_list,
    new_record, new_text, value_field, value_from_text, value_items, value_text, value_to_text,
    JsonView,
};
use vstd::prelude::*;
use vstd::utf8::{decode_utf8, valid_utf8};

verus! {

/// The JSON object that stands for one entry.
pub open spec fn entry_tree(entry: EntryView) -> JsonView {
    JsonView::Record(
        map![
            "identifier"@ => JsonView::Text(entry.identifier),
            "username"@ => JsonView::Text(entry.username),
            "password"@ => JsonView::Text(entry.password),
        ],
    )
}

/// The JSON array that stands for a list of entries, in order.
pub open spec fn entry_trees(entries: Seq<EntryView>) -> Seq<JsonView> {
    Seq::new(entries.len(), |i: int| entry_tree(entries[i]))
}

/// The JSON document that stands for the contents of a vault: the marker
/// `"valid"` and the entries.
pub open spec fn contents_tree(entries: Seq<EntryView>) -> JsonView {
    JsonView::Record(
        map![
            "_pwcheck"@ => JsonView::Text("valid"@),
            "entries"@ => JsonView::List(entry_trees(entries)),
        ],
    )
}

/// The entry that a JSON value stands for: an object with a text under each
/// of `identifier`, `username` and `password`. Other keys are ignored.
pub open spec fn entry_of(tree: JsonView) -> Option<EntryView> {
    match (tree.field("identifier"@), tree.field("username"@), tree.field("password"@)) {
        (
            Some(JsonView::Text(identifier)),
            Some(JsonView::Text(username)),
            Some(JsonView::Text(password)),
        ) => Some(EntryView { identifier, username, password }),
        _ => None,
    }
}

/// Every item of a JSON array stands for an entry.
pub open spec fn all_entries(items: Seq<JsonView>) -> bool {
    forall|i: int| 0 <= i < items.len() ==> (#[trigger] entry_of(items[i])) is Some
}

/// The entries that the items of a JSON array stand for.
pub open spec fn entries_of(items: Seq<JsonView>) -> Seq<EntryView> {
    Seq::new(items.len(), |i: int| entry_of(items[i])->0)
}

/// What a parsed document holds as a vault: its entries; `CorruptedVault`
/// where it lacks the shape of a vault; `InvalidMasterPassword` where it has
/// the shape and the marker is not `"valid"`.
pub open spec fn contents_of(tree: JsonView) -> Result<Seq<EntryView>, FortressError> {
    match (tree.field("_pwcheck"@), tree.field("entries"@)) {
        (Some(JsonView::Text(marker)), Some(JsonView::List(items))) => {
            if !all_entries(items) {
                Err(FortressError::CorruptedVault)
            } else if marker != "valid"@ {
                Err(FortressError::InvalidMasterPassword)
            } else {
                Ok(entries_of(items))
            }
        },
        _ => Err(FortressError::CorruptedVault),
    }
}

/// What a decrypted plaintext holds as a vault: bytes that are not UTF-8, or
/// not JSON, are a corrupted vault; a document is read by `contents_of`.
pub open spec fn decoded_contents(plaintext: Seq<u8>) -> Result<Seq<EntryView>, FortressError> {
    if !valid_utf8(plaintext) {
        Err(FortressError::CorruptedVault)
    } else {
        match json_parsed(decode_utf8(plaintext)) {
            Some(tree) => contents_of(tree),
            None => Err(FortressError::CorruptedVault),
        }
    }
}

/// `std::str::from_utf8`: the text that the bytes encode, where they are
/// valid UTF-8.
#[verifier::external_body]
fn utf8_text(bytes: &[u8]) -> (text: Option<&str>)
    ensures
        match text {
            Some(decoded) => valid_utf8(bytes@) && decoded@ == decode_utf8(bytes@),
            None => !valid_utf8(bytes@),
        },
{
    std::str::from_utf8(bytes).ok()
}

/// The JSON object of one entry.
fn entry_value(entry: &PasswordEntry) -> (value: serde_json::Value)
    ensures
        json_tree(value) == entry_tree(entry@),
{
    let mut fields: Vec<(String, serde_json::Value)> = Vec::new();
    fields.push(("identifier".to_owned(), new_text(entry.identifier.as_str())));
    fields.push(("username".to_owned(), new_text(entry.username.as_str())));
    fields.push(("password".to_owned(), new_text(entry.password.as_str())));
    proof {
        reveal_strlit("identifier");
        reveal_strlit("username");
        reveal_strlit("password");
        assert(fields@[0].0@ == "identifier"@);
        assert(fields@[1].0@ == "username"@);
        assert(fields@[2].0@ == "password"@);
        assert("username"@[0] != "password"@[0]);
        assert(keys_distinct(fields@));
    }
    let ghost listed = fields@;
    let value = new_record(fields);
    proof {
        let record = json_tree(value)->Record_0;
        assert(record[listed[0].0@] == json_tree(listed[0].1));
        assert(record[listed[1].0@] == json_tree(listed[1].1));
        assert(record[listed[2].0@] == json_tree(listed[2].1));
        assert(record =~= entry_tree(entry@)->Record_0);
    }
    value
}

/// Writes the contents of a vault as JSON text. Where it succeeds, the text
/// parses back to the document of the entries.
pub fn encode_contents(entries: &[PasswordEntry]) -> (encoded: Result<String, FortressError>)
    ensures
        match encoded {
            Ok(text) => {
                &&& json_written(contents_tree(entry_views(entries@))) == Some(text@)
                &&& json_parsed(text@) == Some(contents_tree(entry_views(entries@)))
            },
            Err(error) => {
                &&& json_written(contents_tree(entry_views(entries@))) is None
                &&& error is SerializationError
            },
        },
{
    let mut items: Vec<serde_json::Value> = Vec::new();
    let mut i: usize = 0;
    while i < entries.len()
        invariant
            i <= entries@.len(),
            items@.len() == i,
            forall|k: int| 0 <= k < i ==> json_tree(#[trigger] items@[k]) == entry_tree(entries@[k]@),
        decreases entries@.len() - i,
    {
        items.push(entry_value(&entries[i]));
        i += 1;
    }
    assert(json_trees(items@) =~= entry_trees(entry_views(entries@)));
    let mut fields: Vec<(String, serde_json::Value)> = Vec::new();
    fields.push(("_pwcheck".to_owned(), new_text("valid")));
    fields.push(("entries".to_owned(), new_list(items)));
    proof {
        reveal_strlit("_pwcheck");
        reveal_strlit("entries");
        assert(fields@[0].0@ == "_pwcheck"@);
        assert(fields@[1].0@ == "entries"@);
        assert("_pwcheck"@ != "entries"@);
        assert(keys_distinct(fields@));
    }
    let ghost listed = fields@;
    let document = new_record(fields);
    proof {
        let record = json_tree(document)->Record_0;
        assert(record[listed[0].0@] == json_tree(listed[0].1));
        assert(record[listed[1].0@] == json_tree(listed[1].1));
        assert(record =~= contents_tree(entry_views(entries@))->Record_0);
        lemma_contents_tree_plain(entry_views(entries@));
    }
    match value_to_text(&document) {
        Ok(text) => Ok(text),
        Err(error) => Err(FortressError::SerializationError(error)),
    }
}

/// The document of a vault holds no number, and its nesting stays within
/// the depth that reads back.
pub proof fn lemma_contents_tree_plain(entries: Seq<EntryView>)
    ensures
        contents_tree(entries).plain_within(max_nesting()),
{
    reveal_with_fuel(JsonView::plain_within, 5);
    let tree = contents_tree(entries);
    let fields = tree->Record_0;
    assert forall|key: Seq<char>| fields.dom().contains(key) implies (#[trigger] fields[key]).plain_within(
        126,
    ) by {
        if key == "entries"@ {
            let items = entry_trees(entries);
            assert forall|i: int| 0 <= i < items.len() implies (#[trigger] items[i]).plain_within(
                125,
            ) by {
                let inner = items[i]->Record_0;
                assert forall|k: Seq<char>| inner.dom().contains(k) implies (#[trigger] inner[k]).plain_within(
                    124,
                ) by {}
            }
        }
    }
}

/// The entry that a JSON value stands for, if it stands for one.
fn entry_from_value(value: &serde_json::Value) -> (entry: Option<PasswordEntry>)
    ensures
        match entry {
            Some(entry) => entry_of(json_tree(*value)) == Some(entry@),
            None => entry_of(json_tree(*value)) is None,
        },
{
    let identifier = match value_field(value, "identifier") {
        Some(inner) => match value_text(inner) {
            Some(text) => text.to_owned(),
            None => { return None; },
        },
        None => { return None; },
    };
    let username = match value_field(value, "username") {
        Some(inner) => match value_text(inner) {
            Some(text) => text.to_owned(),
            None => { return None; },
        },
        None => { return None; },
    };
    let password = match value_field(value, "password") {
        Some(inner) => match value_text(inner) {
            Some(text) => text.to_owned(),
            None => { return None; },
        },
        None => { return None; },
    };
    Some(PasswordEntry { identifier, username, password })
}

/// Reads a parsed document as a vault.
fn contents_from_value(value: &serde_json::Value) -> (contents: Result<
    Vec<PasswordEntry>,
    FortressError,
>)
    ensures
        match contents {
            Ok(entries) => contents_of(json_tree(*value)) == Ok::<_, FortressError>(
                entry_views(entries@),
            ),
            Err(error) => contents_of(json_tree(*value)) == Err::<Seq<EntryView>, _>(error),
        },
{
    let marker = match value_field(value, "_pwcheck") {
        Some(inner) => match value_text(inner) {
            Some(text) => text.to_owned(),
            None => { return Err(FortressError::CorruptedVault); },
        },
        None => { return Err(FortressError::CorruptedVault); },
    };
    let items = match value_field(value, "entries") {
        Some(inner) => match value_items(inner) {
            Some(items) => items,
            None => { return Err(FortressError::CorruptedVault); },
        },
        None => { return Err(FortressError::CorruptedVault); },
    };
    let ghost trees = json_trees(items@);
    let mut entries: Vec<PasswordEntry> = Vec::new();
    let mut i: usize = 0;
    while i < items.len()
        invariant
            i <= items@.len(),
            trees == json_trees(items@),
            json_tree(*value).field("_pwcheck"@) == Some(JsonView::Text(marker@)),
            json_tree(*value).field("entries"@) == Some(JsonView::List(trees)),
            entries@.len() == i,
            forall|k: int| 0 <= k < i ==> entry_of(#[trigger] trees[k]) == Some(entries@[k]@),
        decreases items@.len() - i,
    {
        match entry_from_value(&items[i]) {
            Some(entry) => {
                entries.push(entry);
            },
            None => {
                assert(entry_of(trees[i as int]) is None);
                assert(!all_entries(trees));
                return Err(FortressError::CorruptedVault);
            },
        }
        i += 1;
    }
    assert(all_entries(trees));
    assert(entries_of(trees) =~= entry_views(entries@));
    if marker != "valid".to_owned() {
        return Err(FortressError::InvalidMasterPassword);
    }
    Ok(entries)
}

/// Reads the decrypted plaintext of a vault: the entries it holds, or the
/// error that `decoded_contents` gives for it.
pub fn decode_contents(plaintext: &[u8]) -> (decoded: Result<Vec<PasswordEntry>, FortressError>)
    ensures
        match decoded {
            Ok(entries) => decoded_contents(plaintext@) == Ok::<_, FortressError>(
                entry_views(entries@),
            ),
            Err(error) => decoded_contents(plaintext@) == Err::<Seq<EntryView>, _>(error),
        },
{
    let text = match utf8_text(plaintext) {
        Some(text) => text,
        None => { return Err(FortressError::CorruptedVault); },
    };
    match value_from_text(text) {
        Ok(value) => contents_from_value(&value),
        Err(_) => Err(FortressError::CorruptedVault),
    }
}

/// A vault's document reads back as the entries it was made from.
pub proof fn lemma_contents_round_trip(entries: Seq<EntryView>)
    ensures
        contents_of(contents_tree(entries)) == Ok::<_, FortressError>(entries),
{
    reveal_strlit("_pwcheck");
    reveal_strlit("entries");
    reveal_strlit("identifier");
    reveal_strlit("username");
    reveal_strlit("password");
    assert("identifier"@.len() != "username"@.len());
    assert("identifier"@.len() != "password"@.len());
    assert("username"@[0] != "password"@[0]);
    assert("_pwcheck"@.len() != "entries"@.len());
    let items = entry_trees(entries);
    assert forall|i: int| 0 <= i < items.len() implies (#[trigger] entry_of(items[i])) == Some(
        entries[i],
    ) by {}
    assert(entries_of(items) =~= entries);
}

} // verus!
