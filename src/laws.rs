//! What holds of every document: which members appear, under which keys, and
//! in which order.
use vstd::prelude::*;

use crate::item::{
    item_json, icon_json, icon_member, item_members, kind_member, modifier_json, modifier_members, mods_member,
    output_json, put_modifier, string_member, text_member, text_members, valid_member, IconView,
    ItemView, Kind, ModifierDataView, ModifierKey, TextView,
};
use crate::json::{array, joined, json_string_of, member_text, object};

verus! {

/// Some member of `members` has the key `key`.
pub open spec fn has_key(members: Seq<(Seq<char>, Seq<char>)>, key: Seq<char>) -> bool {
    exists|i: int| 0 <= i < members.len() && members[i].0 == key
}

proof fn lemma_has_key_concat(a: Seq<(Seq<char>, Seq<char>)>, b: Seq<(Seq<char>, Seq<char>)>, key: Seq<char>)
    ensures
        has_key(a + b, key) == (has_key(a, key) || has_key(b, key)),
{
    if has_key(a + b, key) {
        let i = choose|i: int| 0 <= i < (a + b).len() && (a + b)[i].0 == key;
        if i < a.len() {
            assert(a[i].0 == key);
        } else {
            assert(b[i - a.len()].0 == key);
        }
    }
    if has_key(a, key) {
        let i = choose|i: int| 0 <= i < a.len() && a[i].0 == key;
        assert((a + b)[i].0 == key);
    }
    if has_key(b, key) {
        let i = choose|i: int| 0 <= i < b.len() && b[i].0 == key;
        assert((a + b)[a.len() + i].0 == key);
    }
}

proof fn lemma_has_key_one(m: (Seq<char>, Seq<char>), key: Seq<char>)
    ensures
        has_key(seq![m], key) == (m.0 == key),
{
    if m.0 == key {
        assert(seq![m][0].0 == key);
    }
}

proof fn lemma_has_key_string(k: Seq<char>, o: Option<Seq<char>>, key: Seq<char>)
    ensures
        has_key(string_member(k, o), key) == (o is Some && k == key),
{
    if let Some(s) = o {
        lemma_has_key_one((k, json_string_of(s)), key);
    }
}

proof fn lemma_item_has_key(v: ItemView, key: Seq<char>)
    ensures
        has_key(item_members(v), key) == ("title"@ == key || (v.subtitle is Some && "subtitle"@ == key)
            || (v.uid is Some && "uid"@ == key) || (v.arg is Some && "arg"@ == key) || (v.icon is Some
            && "icon"@ == key) || (v.valid is Some && "valid"@ == key) || (v.matches is Some && "match"@
            == key) || (v.autocomplete is Some && "autocomplete"@ == key) || (v.kind != Kind::Default
            && "type"@ == key) || (v.modifiers.len() > 0 && "mods"@ == key) || (v.text is Some
            && "text"@ == key) || (v.quicklook_url is Some && "quicklookurl"@ == key)),
{
    let p0 = seq![("title"@, json_string_of(v.title))];
    let p1 = string_member("subtitle"@, v.subtitle);
    let p2 = string_member("uid"@, v.uid);
    let p3 = string_member("arg"@, v.arg);
    let p4 = icon_member(v.icon);
    let p5 = valid_member(v.valid);
    let p6 = string_member("match"@, v.matches);
    let p7 = string_member("autocomplete"@, v.autocomplete);
    let p8 = kind_member(v.kind);
    let p9 = mods_member(v.modifiers);
    let p10 = text_member(v.text);
    let p11 = string_member("quicklookurl"@, v.quicklook_url);
    lemma_has_key_concat(p0, p1, key);
    lemma_has_key_concat(p0 + p1, p2, key);
    lemma_has_key_concat(p0 + p1 + p2, p3, key);
    lemma_has_key_concat(p0 + p1 + p2 + p3, p4, key);
    lemma_has_key_concat(p0 + p1 + p2 + p3 + p4, p5, key);
    lemma_has_key_concat(p0 + p1 + p2 + p3 + p4 + p5, p6, key);
    lemma_has_key_concat(p0 + p1 + p2 + p3 + p4 + p5 + p6, p7, key);
    lemma_has_key_concat(p0 + p1 + p2 + p3 + p4 + p5 + p6 + p7, p8, key);
    lemma_has_key_concat(p0 + p1 + p2 + p3 + p4 + p5 + p6 + p7 + p8, p9, key);
    lemma_has_key_concat(p0 + p1 + p2 + p3 + p4 + p5 + p6 + p7 + p8 + p9, p10, key);
    lemma_has_key_concat(p0 + p1 + p2 + p3 + p4 + p5 + p6 + p7 + p8 + p9 + p10, p11, key);
    lemma_has_key_one(("title"@, json_string_of(v.title)), key);
    lemma_has_key_string("subtitle"@, v.subtitle, key);
    lemma_has_key_string("uid"@, v.uid, key);
    lemma_has_key_string("arg"@, v.arg, key);
    lemma_has_key_string("match"@, v.matches, key);
    lemma_has_key_string("autocomplete"@, v.autocomplete, key);
    lemma_has_key_string("quicklookurl"@, v.quicklook_url, key);
    if let Some(i) = v.icon {
        lemma_has_key_one(("icon"@, icon_json(i)), key);
    }
    if let Some(b) = v.valid {
        lemma_has_key_one(("valid"@, crate::item::bool_json(b)), key);
    }
    if v.kind != Kind::Default {
        lemma_has_key_one(("type"@, v.kind.spec_json()), key);
    }
    if v.modifiers.len() > 0 {
        lemma_has_key_one(("mods"@, object(crate::item::mods_members(v.modifiers))), key);
    }
    if let Some(t) = v.text {
        lemma_has_key_one(("text"@, crate::item::text_json(t)), key);
    }
}

/// The keys of an item's members differ from each other and from the field
/// names that the document renames.
proof fn lemma_item_keys_distinct()
    ensures
        "title"@ != "subtitle"@,
        "title"@ != "uid"@,
        "title"@ != "arg"@,
        "title"@ != "icon"@,
        "title"@ != "valid"@,
        "title"@ != "match"@,
        "title"@ != "autocomplete"@,
        "title"@ != "type"@,
        "title"@ != "mods"@,
        "title"@ != "text"@,
        "title"@ != "quicklookurl"@,
        "subtitle"@ != "uid"@,
        "subtitle"@ != "arg"@,
        "subtitle"@ != "icon"@,
        "subtitle"@ != "valid"@,
        "subtitle"@ != "match"@,
        "subtitle"@ != "autocomplete"@,
        "subtitle"@ != "type"@,
        "subtitle"@ != "mods"@,
        "subtitle"@ != "text"@,
        "subtitle"@ != "quicklookurl"@,
        "uid"@ != "arg"@,
        "uid"@ != "icon"@,
        "uid"@ != "valid"@,
        "uid"@ != "match"@,
        "uid"@ != "autocomplete"@,
        "uid"@ != "type"@,
        "uid"@ != "mods"@,
        "uid"@ != "text"@,
        "uid"@ != "quicklookurl"@,
        "arg"@ != "icon"@,
        "arg"@ != "valid"@,
        "arg"@ != "match"@,
        "arg"@ != "autocomplete"@,
        "arg"@ != "type"@,
        "arg"@ != "mods"@,
        "arg"@ != "text"@,
        "arg"@ != "quicklookurl"@,
        "icon"@ != "valid"@,
        "icon"@ != "match"@,
        "icon"@ != "autocomplete"@,
        "icon"@ != "type"@,
        "icon"@ != "mods"@,
        "icon"@ != "text"@,
        "icon"@ != "quicklookurl"@,
        "valid"@ != "match"@,
        "valid"@ != "autocomplete"@,
        "valid"@ != "type"@,
        "valid"@ != "mods"@,
        "valid"@ != "text"@,
        "valid"@ != "quicklookurl"@,
        "match"@ != "autocomplete"@,
        "match"@ != "type"@,
        "match"@ != "mods"@,
        "match"@ != "text"@,
        "match"@ != "quicklookurl"@,
        "autocomplete"@ != "type"@,
        "autocomplete"@ != "mods"@,
        "autocomplete"@ != "text"@,
        "autocomplete"@ != "quicklookurl"@,
        "type"@ != "mods"@,
        "type"@ != "text"@,
        "type"@ != "quicklookurl"@,
        "mods"@ != "text"@,
        "mods"@ != "quicklookurl"@,
        "text"@ != "quicklookurl"@,
        "matches"@ != "title"@,
        "matches"@ != "subtitle"@,
        "matches"@ != "uid"@,
        "matches"@ != "arg"@,
        "matches"@ != "icon"@,
        "matches"@ != "valid"@,
        "matches"@ != "match"@,
        "matches"@ != "autocomplete"@,
        "matches"@ != "type"@,
        "matches"@ != "mods"@,
        "matches"@ != "text"@,
        "matches"@ != "quicklookurl"@,
        "quicklook_url"@ != "title"@,
        "quicklook_url"@ != "subtitle"@,
        "quicklook_url"@ != "uid"@,
        "quicklook_url"@ != "arg"@,
        "quicklook_url"@ != "icon"@,
        "quicklook_url"@ != "valid"@,
        "quicklook_url"@ != "match"@,
        "quicklook_url"@ != "autocomplete"@,
        "quicklook_url"@ != "type"@,
        "quicklook_url"@ != "mods"@,
        "quicklook_url"@ != "text"@,
        "quicklook_url"@ != "quicklookurl"@,
        "kind"@ != "title"@,
        "kind"@ != "subtitle"@,
        "kind"@ != "uid"@,
        "kind"@ != "arg"@,
        "kind"@ != "icon"@,
        "kind"@ != "valid"@,
        "kind"@ != "match"@,
        "kind"@ != "autocomplete"@,
        "kind"@ != "type"@,
        "kind"@ != "mods"@,
        "kind"@ != "text"@,
        "kind"@ != "quicklookurl"@,
        "modifiers"@ != "title"@,
        "modifiers"@ != "subtitle"@,
        "modifiers"@ != "uid"@,
        "modifiers"@ != "arg"@,
        "modifiers"@ != "icon"@,
        "modifiers"@ != "valid"@,
        "modifiers"@ != "match"@,
        "modifiers"@ != "autocomplete"@,
        "modifiers"@ != "type"@,
        "modifiers"@ != "mods"@,
        "modifiers"@ != "text"@,
        "modifiers"@ != "quicklookurl"@,
{
    reveal_strlit("title");
    reveal_strlit("subtitle");
    reveal_strlit("uid");
    reveal_strlit("arg");
    reveal_strlit("icon");
    reveal_strlit("valid");
    reveal_strlit("match");
    reveal_strlit("autocomplete");
    reveal_strlit("type");
    reveal_strlit("mods");
    reveal_strlit("text");
    reveal_strlit("quicklookurl");
    reveal_strlit("matches");
    reveal_strlit("quicklook_url");
    reveal_strlit("kind");
    reveal_strlit("modifiers");
    assert("title"@.len() != "subtitle"@.len());
    assert("title"@.len() != "uid"@.len());
    assert("title"@.len() != "arg"@.len());
    assert("title"@.len() != "icon"@.len());
    assert("title"@[0] != "valid"@[0]);
    assert("title"@[0] != "match"@[0]);
    assert("title"@.len() != "autocomplete"@.len());
    assert("title"@.len() != "type"@.len());
    assert("title"@.len() != "mods"@.len());
    assert("title"@.len() != "text"@.len());
    assert("title"@.len() != "quicklookurl"@.len());
    assert("subtitle"@.len() != "uid"@.len());
    assert("subtitle"@.len() != "arg"@.len());
    assert("subtitle"@.len() != "icon"@.len());
    assert("subtitle"@.len() != "valid"@.len());
    assert("subtitle"@.len() != "match"@.len());
    assert("subtitle"@.len() != "autocomplete"@.len());
    assert("subtitle"@.len() != "type"@.len());
    assert("subtitle"@.len() != "mods"@.len());
    assert("subtitle"@.len() != "text"@.len());
    assert("subtitle"@.len() != "quicklookurl"@.len());
    assert("uid"@[0] != "arg"@[0]);
    assert("uid"@.len() != "icon"@.len());
    assert("uid"@.len() != "valid"@.len());
    assert("uid"@.len() != "match"@.len());
    assert("uid"@.len() != "autocomplete"@.len());
    assert("uid"@.len() != "type"@.len());
    assert("uid"@.len() != "mods"@.len());
    assert("uid"@.len() != "text"@.len());
    assert("uid"@.len() != "quicklookurl"@.len());
    assert("arg"@.len() != "icon"@.len());
    assert("arg"@.len() != "valid"@.len());
    assert("arg"@.len() != "match"@.len());
    assert("arg"@.len() != "autocomplete"@.len());
    assert("arg"@.len() != "type"@.len());
    assert("arg"@.len() != "mods"@.len());
    assert("arg"@.len() != "text"@.len());
    assert("arg"@.len() != "quicklookurl"@.len());
    assert("icon"@.len() != "valid"@.len());
    assert("icon"@.len() != "match"@.len());
    assert("icon"@.len() != "autocomplete"@.len());
    assert("icon"@[0] != "type"@[0]);
    assert("icon"@[0] != "mods"@[0]);
    assert("icon"@[0] != "text"@[0]);
    assert("icon"@.len() != "quicklookurl"@.len());
    assert("valid"@[0] != "match"@[0]);
    assert("valid"@.len() != "autocomplete"@.len());
    assert("valid"@.len() != "type"@.len());
    assert("valid"@.len() != "mods"@.len());
    assert("valid"@.len() != "text"@.len());
    assert("valid"@.len() != "quicklookurl"@.len());
    assert("match"@.len() != "autocomplete"@.len());
    assert("match"@.len() != "type"@.len());
    assert("match"@.len() != "mods"@.len());
    assert("match"@.len() != "text"@.len());
    assert("match"@.len() != "quicklookurl"@.len());
    assert("autocomplete"@.len() != "type"@.len());
    assert("autocomplete"@.len() != "mods"@.len());
    assert("autocomplete"@.len() != "text"@.len());
    assert("autocomplete"@[0] != "quicklookurl"@[0]);
    assert("type"@[0] != "mods"@[0]);
    assert("type"@[1] != "text"@[1]);
    assert("type"@.len() != "quicklookurl"@.len());
    assert("mods"@[0] != "text"@[0]);
    assert("mods"@.len() != "quicklookurl"@.len());
    assert("text"@.len() != "quicklookurl"@.len());
    assert("matches"@.len() != "title"@.len());
    assert("matches"@.len() != "subtitle"@.len());
    assert("matches"@.len() != "uid"@.len());
    assert("matches"@.len() != "arg"@.len());
    assert("matches"@.len() != "icon"@.len());
    assert("matches"@.len() != "valid"@.len());
    assert("matches"@.len() != "match"@.len());
    assert("matches"@.len() != "autocomplete"@.len());
    assert("matches"@.len() != "type"@.len());
    assert("matches"@.len() != "mods"@.len());
    assert("matches"@.len() != "text"@.len());
    assert("matches"@.len() != "quicklookurl"@.len());
    assert("quicklook_url"@.len() != "title"@.len());
    assert("quicklook_url"@.len() != "subtitle"@.len());
    assert("quicklook_url"@.len() != "uid"@.len());
    assert("quicklook_url"@.len() != "arg"@.len());
    assert("quicklook_url"@.len() != "icon"@.len());
    assert("quicklook_url"@.len() != "valid"@.len());
    assert("quicklook_url"@.len() != "match"@.len());
    assert("quicklook_url"@.len() != "autocomplete"@.len());
    assert("quicklook_url"@.len() != "type"@.len());
    assert("quicklook_url"@.len() != "mods"@.len());
    assert("quicklook_url"@.len() != "text"@.len());
    assert("quicklook_url"@.len() != "quicklookurl"@.len());
    assert("kind"@.len() != "title"@.len());
    assert("kind"@.len() != "subtitle"@.len());
    assert("kind"@.len() != "uid"@.len());
    assert("kind"@.len() != "arg"@.len());
    assert("kind"@[0] != "icon"@[0]);
    assert("kind"@.len() != "valid"@.len());
    assert("kind"@.len() != "match"@.len());
    assert("kind"@.len() != "autocomplete"@.len());
    assert("kind"@[0] != "type"@[0]);
    assert("kind"@[0] != "mods"@[0]);
    assert("kind"@[0] != "text"@[0]);
    assert("kind"@.len() != "quicklookurl"@.len());
    assert("modifiers"@.len() != "title"@.len());
    assert("modifiers"@.len() != "subtitle"@.len());
    assert("modifiers"@.len() != "uid"@.len());
    assert("modifiers"@.len() != "arg"@.len());
    assert("modifiers"@.len() != "icon"@.len());
    assert("modifiers"@.len() != "valid"@.len());
    assert("modifiers"@.len() != "match"@.len());
    assert("modifiers"@.len() != "autocomplete"@.len());
    assert("modifiers"@.len() != "type"@.len());
    assert("modifiers"@.len() != "mods"@.len());
    assert("modifiers"@.len() != "text"@.len());
    assert("modifiers"@.len() != "quicklookurl"@.len());
}

/// An item's object has a member for an optional field exactly when the field
/// is set, under the document's key for it: `match` for the matched text,
/// `quicklookurl` for the quick look URL, `type` for a kind other than the
/// default, `mods` for a nonempty set of overrides. The title is always there.
pub proof fn lemma_item_members_present_iff_set(v: ItemView)
    ensures
        has_key(item_members(v), "title"@),
        has_key(item_members(v), "subtitle"@) == v.subtitle is Some,
        has_key(item_members(v), "uid"@) == v.uid is Some,
        has_key(item_members(v), "arg"@) == v.arg is Some,
        has_key(item_members(v), "icon"@) == v.icon is Some,
        has_key(item_members(v), "valid"@) == v.valid is Some,
        has_key(item_members(v), "match"@) == v.matches is Some,
        has_key(item_members(v), "autocomplete"@) == v.autocomplete is Some,
        has_key(item_members(v), "type"@) == (v.kind != Kind::Default),
        has_key(item_members(v), "mods"@) == (v.modifiers.len() > 0),
        has_key(item_members(v), "text"@) == v.text is Some,
        has_key(item_members(v), "quicklookurl"@) == v.quicklook_url is Some,
        !has_key(item_members(v), "matches"@),
        !has_key(item_members(v), "quicklook_url"@),
        !has_key(item_members(v), "kind"@),
        !has_key(item_members(v), "modifiers"@),
{
    lemma_item_keys_distinct();
    lemma_item_has_key(v, "title"@);
    lemma_item_has_key(v, "subtitle"@);
    lemma_item_has_key(v, "uid"@);
    lemma_item_has_key(v, "arg"@);
    lemma_item_has_key(v, "icon"@);
    lemma_item_has_key(v, "valid"@);
    lemma_item_has_key(v, "match"@);
    lemma_item_has_key(v, "autocomplete"@);
    lemma_item_has_key(v, "type"@);
    lemma_item_has_key(v, "mods"@);
    lemma_item_has_key(v, "text"@);
    lemma_item_has_key(v, "quicklookurl"@);
    lemma_item_has_key(v, "matches"@);
    lemma_item_has_key(v, "quicklook_url"@);
    lemma_item_has_key(v, "kind"@);
    lemma_item_has_key(v, "modifiers"@);
}

proof fn lemma_modifier_has_key(d: ModifierDataView, key: Seq<char>)
    ensures
        has_key(modifier_members(d), key) == ((d.subtitle is Some && "subtitle"@ == key) || (d.arg is Some
            && "arg"@ == key) || (d.icon is Some && "icon"@ == key) || (d.valid is Some && "valid"@ == key)),
{
    let p0 = string_member("subtitle"@, d.subtitle);
    let p1 = string_member("arg"@, d.arg);
    let p2 = icon_member(d.icon);
    let p3 = valid_member(d.valid);
    lemma_has_key_concat(p0, p1, key);
    lemma_has_key_concat(p0 + p1, p2, key);
    lemma_has_key_concat(p0 + p1 + p2, p3, key);
    lemma_has_key_string("subtitle"@, d.subtitle, key);
    lemma_has_key_string("arg"@, d.arg, key);
    if let Some(i) = d.icon {
        lemma_has_key_one(("icon"@, icon_json(i)), key);
    }
    if let Some(b) = d.valid {
        lemma_has_key_one(("valid"@, crate::item::bool_json(b)), key);
    }
}

/// A modifier override's object has a member for a field exactly when the
/// field is set.
pub proof fn lemma_modifier_members_present_iff_set(d: ModifierDataView)
    ensures
        has_key(modifier_members(d), "subtitle"@) == d.subtitle is Some,
        has_key(modifier_members(d), "arg"@) == d.arg is Some,
        has_key(modifier_members(d), "icon"@) == d.icon is Some,
        has_key(modifier_members(d), "valid"@) == d.valid is Some,
{
    lemma_item_keys_distinct();
    lemma_modifier_has_key(d, "subtitle"@);
    lemma_modifier_has_key(d, "arg"@);
    lemma_modifier_has_key(d, "icon"@);
    lemma_modifier_has_key(d, "valid"@);
}

/// A text's object has a member for a field exactly when the field is set;
/// the large type text goes under `largetype`.
pub proof fn lemma_text_members_present_iff_set(t: TextView)
    ensures
        has_key(text_members(t), "copy"@) == t.copy is Some,
        has_key(text_members(t), "largetype"@) == t.large_type is Some,
{
    reveal_strlit("copy");
    reveal_strlit("largetype");
    assert("copy"@.len() != "largetype"@.len());
    lemma_has_key_concat(string_member("copy"@, t.copy), string_member("largetype"@, t.large_type), "copy"@);
    lemma_has_key_concat(
        string_member("copy"@, t.copy),
        string_member("largetype"@, t.large_type),
        "largetype"@,
    );
    lemma_has_key_string("copy"@, t.copy, "copy"@);
    lemma_has_key_string("copy"@, t.copy, "largetype"@);
    lemma_has_key_string("largetype"@, t.large_type, "copy"@);
    lemma_has_key_string("largetype"@, t.large_type, "largetype"@);
}

/// Setting one override on an item that has none gives a `mods` member whose
/// object holds exactly that override, under the modifier's name.
pub proof fn lemma_first_modifier(v: ItemView, k: ModifierKey, d: ModifierDataView)
    requires
        v.modifiers.len() == 0,
    ensures
        put_modifier(v.modifiers, k, d) == seq![(k, d)],
        mods_member(put_modifier(v.modifiers, k, d)) == seq![
            ("mods"@, object(seq![(k.spec_name(), modifier_json(d))])),
        ],
{
    assert(put_modifier(v.modifiers, k, d) =~= seq![(k, d)]);
    assert(crate::item::mods_members(seq![(k, d)]) =~= seq![(k.spec_name(), modifier_json(d))]);
}

proof fn lemma_object_one(key: Seq<char>, value: Seq<char>)
    ensures
        object(seq![(key, value)]) == seq!['{'] + member_text((key, value)) + seq!['}'],
{
    let ms = seq![(key, value)].map_values(|m: (Seq<char>, Seq<char>)| member_text(m));
    assert(ms =~= seq![member_text((key, value))]);
}

proof fn lemma_object_two(k0: Seq<char>, v0: Seq<char>, k1: Seq<char>, v1: Seq<char>)
    ensures
        object(seq![(k0, v0), (k1, v1)]) == seq!['{'] + member_text((k0, v0)) + seq![','] + member_text(
            (k1, v1),
        ) + seq!['}'],
{
    let ms = seq![(k0, v0), (k1, v1)].map_values(|m: (Seq<char>, Seq<char>)| member_text(m));
    assert(ms =~= seq![member_text((k0, v0)), member_text((k1, v1))]);
    assert(ms.drop_last() =~= seq![member_text((k0, v0))]);
    assert(joined(ms.drop_last()) == member_text((k0, v0)));
    assert(joined(ms) == member_text((k0, v0)) + seq![','] + member_text((k1, v1)));
    assert(object(seq![(k0, v0), (k1, v1)]) =~= seq!['{'] + member_text((k0, v0)) + seq![','] + member_text(
        (k1, v1),
    ) + seq!['}']);
}

/// The three icons' objects: an image has only its path; a file's icon and a
/// type's icon have a `type` member and carry the path or the identifier
/// under `path`.
pub proof fn lemma_icon_shapes(p: Seq<char>)
    ensures
        icon_json(IconView::Image(p)) == "{\"path\":"@ + json_string_of(p) + "}"@,
        icon_json(IconView::FileIcon(p)) == "{\"type\":\"fileicon\",\"path\":"@ + json_string_of(p)
            + "}"@,
        icon_json(IconView::FileType(p)) == "{\"type\":\"filetype\",\"path\":"@ + json_string_of(p)
            + "}"@,
{
    reveal_strlit("{\"path\":");
    reveal_strlit("{\"type\":\"fileicon\",\"path\":");
    reveal_strlit("{\"type\":\"filetype\",\"path\":");
    reveal_strlit("}");
    reveal_strlit("path");
    reveal_strlit("type");
    reveal_strlit("\"fileicon\"");
    reveal_strlit("\"filetype\"");
    let q = json_string_of(p);
    lemma_object_one("path"@, q);
    assert(icon_json(IconView::Image(p)) =~= "{\"path\":"@ + q + "}"@);
    lemma_object_two("type"@, "\"fileicon\""@, "path"@, q);
    assert(icon_json(IconView::FileIcon(p)) =~= "{\"type\":\"fileicon\",\"path\":"@ + q + "}"@);
    lemma_object_two("type"@, "\"filetype\""@, "path"@, q);
    assert(icon_json(IconView::FileType(p)) =~= "{\"type\":\"filetype\",\"path\":"@ + q + "}"@);
}

proof fn lemma_items_text(x: Seq<char>, y: Seq<char>, z: Seq<char>)
    ensures
        object(seq![("items"@, array(seq![x, y, z]))]) == "{\"items\":["@ + x + ","@ + y + ","@ + z + "]}"@,
{
    reveal_strlit("{\"items\":[");
    reveal_strlit(",");
    reveal_strlit("]}");
    reveal_strlit("items");
    let es = seq![x, y, z];
    assert(es.drop_last() =~= seq![x, y]);
    assert(es.drop_last().drop_last() =~= seq![x]);
    assert(joined(es.drop_last().drop_last()) == x);
    assert(joined(es.drop_last()) == x + seq![','] + y);
    assert(joined(es) == x + seq![','] + y + seq![','] + z);
    lemma_object_one("items"@, array(es));
    assert(object(seq![("items"@, array(es))]) =~= "{\"items\":["@ + x + ","@ + y + ","@ + z + "]}"@);
}

/// A document lists its items in their order, separated by commas.
pub proof fn lemma_items_in_order(a: ItemView, b: ItemView, c: ItemView)
    ensures
        output_json(seq![a, b, c]) == "{\"items\":["@ + item_json(a) + ","@ + item_json(b) + ","@
            + item_json(c) + "]}"@,
{
    let es = seq![a, b, c].map_values(|v: ItemView| item_json(v));
    assert(es =~= seq![item_json(a), item_json(b), item_json(c)]);
    lemma_items_text(item_json(a), item_json(b), item_json(c));
}

/// A document with no items is an empty list under `items`.
pub proof fn lemma_empty_output()
    ensures
        output_json(Seq::empty()) == "{\"items\":[]}"@,
{
    reveal_strlit("{\"items\":[]}");
    reveal_strlit("items");
    let es = Seq::<ItemView>::empty().map_values(|v: ItemView| item_json(v));
    assert(es =~= Seq::<Seq<char>>::empty());
    lemma_object_one("items"@, array(es));
    assert(output_json(Seq::empty()) =~= "{\"items\":[]}"@);
}

} // verus!
