//! Script filter items, their icons and modifier overrides, and the document
//! that lists them.
use vstd::prelude::*;

use crate::json::{
    array, json_string, json_string_of, members_view, object, render_array, render_object,
    strings_view,
};

verus! {

/// A keyboard modifier.
#[derive(Debug, Clone, Copy, PartialEq, Eq, Hash, Structural)]
pub enum ModifierKey {
    /// The command key.
    Command,
    /// The option key.
    Option,
    /// The control key.
    Control,
    /// The shift key.
    Shift,
    /// The function key.
    Function,
}

impl ModifierKey {
    /// The key's name in the document.
    pub open spec fn spec_name(self) -> Seq<char> {
        match self {
            ModifierKey::Command => "cmd"@,
            ModifierKey::Option => "alt"@,
            ModifierKey::Control => "ctrl"@,
            ModifierKey::Shift => "shift"@,
            ModifierKey::Function => "fn"@,
        }
    }

    /// The key's name in the document.
    pub fn name(&self) -> (r: &'static str)
        ensures
            r@ == self.spec_name(),
    {
        match self {
            ModifierKey::Command => "cmd",
            ModifierKey::Option => "alt",
            ModifierKey::Control => "ctrl",
            ModifierKey::Shift => "shift",
            ModifierKey::Function => "fn",
        }
    }
}

/// The type of an item.
#[derive(Debug, Clone, Copy, PartialEq, Eq, Hash, Structural)]
pub enum Kind {
    /// A plain result.
    Default,
    /// A file, whose existence is checked.
    File,
    /// A file, whose existence is not checked.
    FileSkipCheck,
}

impl Kind {
    /// The kind's encoded value in the document, quotes included.
    pub open spec fn spec_json(self) -> Seq<char> {
        match self {
            Kind::Default => "\"default\""@,
            Kind::File => "\"file\""@,
            Kind::FileSkipCheck => "\"file:skipcheck\""@,
        }
    }

    /// The kind's encoded value in the document, quotes included.
    pub fn to_json(&self) -> (r: String)
        ensures
            r@ == self.spec_json(),
    {
        match self {
            Kind::Default => String::from_str("\"default\""),
            Kind::File => String::from_str("\"file\""),
            Kind::FileSkipCheck => String::from_str("\"file:skipcheck\""),
        }
    }
}

impl Default for Kind {
    fn default() -> (r: Kind)
        ensures
            r == Kind::Default,
    {
        Kind::Default
    }
}

/// Whether `kind` is the default kind, which the document leaves out.
pub fn is_default(kind: &Kind) -> (r: bool)
    ensures
        r == (*kind == Kind::Default),
{
    *kind == Kind::Default
}

#[derive(Debug, Clone, PartialEq, Eq, Hash)]
enum IconInner {
    Image(String),
    FileIcon(String),
    FileType(String),
}

/// An icon for an item or a modifier override.
#[derive(Debug, Clone, PartialEq, Eq, Hash)]
pub struct Icon {
    inner: IconInner,
}

/// What an icon is: an image at a path, the icon of the file at a path, or
/// the icon of a uniform type identifier.
pub enum IconView {
    Image(Seq<char>),
    FileIcon(Seq<char>),
    FileType(Seq<char>),
}

impl View for Icon {
    type V = IconView;

    closed spec fn view(&self) -> IconView {
        match self.inner {
            IconInner::Image(p) => IconView::Image(p@),
            IconInner::FileIcon(p) => IconView::FileIcon(p@),
            IconInner::FileType(t) => IconView::FileType(t@),
        }
    }
}

/// The members of an icon's object.
pub open spec fn icon_members(i: IconView) -> Seq<(Seq<char>, Seq<char>)> {
    match i {
        IconView::Image(p) => seq![("path"@, json_string_of(p))],
        IconView::FileIcon(p) => seq![("type"@, "\"fileicon\""@), ("path"@, json_string_of(p))],
        IconView::FileType(t) => seq![("type"@, "\"filetype\""@), ("path"@, json_string_of(t))],
    }
}

/// An icon's object.
pub open spec fn icon_json(i: IconView) -> Seq<char> {
    object(icon_members(i))
}

impl Icon {
    /// An icon that shows the image at `path`.
    pub fn with_image(path: &str) -> (r: Icon)
        ensures
            r@ == IconView::Image(path@),
    {
        Icon { inner: IconInner::Image(String::from_str(path)) }
    }

    /// An icon that shows the icon of the file at `path`.
    pub fn with_file_icon(path: &str) -> (r: Icon)
        ensures
            r@ == IconView::FileIcon(path@),
    {
        Icon { inner: IconInner::FileIcon(String::from_str(path)) }
    }

    /// An icon that shows the icon of the uniform type identifier `uti`.
    pub fn with_type(uti: &str) -> (r: Icon)
        ensures
            r@ == IconView::FileType(uti@),
    {
        Icon { inner: IconInner::FileType(String::from_str(uti)) }
    }

    /// The icon's object in the document.
    pub fn to_json(&self) -> (r: String)
        ensures
            r@ == icon_json(self@),
    {
        let mut members: Vec<(&'static str, String)> = Vec::new();
        match &self.inner {
            IconInner::Image(p) => {
                push_string(&mut members, "path", p);
            },
            IconInner::FileIcon(p) => {
                push_member(&mut members, "type", String::from_str("\"fileicon\""));
                push_string(&mut members, "path", p);
            },
            IconInner::FileType(t) => {
                push_member(&mut members, "type", String::from_str("\"filetype\""));
                push_string(&mut members, "path", t);
            },
        }
        proof {
            assert(members_view(members@) =~= icon_members(self@));
        }
        render_object(&members)
    }
}

/// Appends a member whose value is already encoded.
fn push_member(members: &mut Vec<(&'static str, String)>, key: &'static str, value: String)
    ensures
        members_view(final(members)@) == members_view(old(members)@).push((key@, value@)),
{
    let ghost v = value@;
    members.push((key, value));
    proof {
        assert(members_view(members@) =~= members_view(old(members)@).push((key@, v)));
    }
}

/// Appends a member whose value is the string `s`.
fn push_string(members: &mut Vec<(&'static str, String)>, key: &'static str, s: &String)
    ensures
        members_view(final(members)@) == members_view(old(members)@).push(
            (key@, json_string_of(s@)),
        ),
{
    push_member(members, key, json_string(s.as_str()));
}

/// The view of an optional string.
pub open spec fn opt_view(o: Option<String>) -> Option<Seq<char>> {
    match o {
        Some(s) => Some(s@),
        None => None,
    }
}

/// The member for an optional string: none where it is absent.
pub open spec fn string_member(key: Seq<char>, o: Option<Seq<char>>) -> Seq<(Seq<char>, Seq<char>)> {
    match o {
        Some(s) => seq![(key, json_string_of(s))],
        None => Seq::empty(),
    }
}

/// The member for an optional icon: none where it is absent.
pub open spec fn icon_member(o: Option<IconView>) -> Seq<(Seq<char>, Seq<char>)> {
    match o {
        Some(i) => seq![("icon"@, icon_json(i))],
        None => Seq::empty(),
    }
}

/// A boolean's JSON literal.
pub open spec fn bool_json(b: bool) -> Seq<char> {
    if b {
        "true"@
    } else {
        "false"@
    }
}

/// The member for an optional validity: none where it is absent.
pub open spec fn valid_member(o: Option<bool>) -> Seq<(Seq<char>, Seq<char>)> {
    match o {
        Some(b) => seq![("valid"@, bool_json(b))],
        None => Seq::empty(),
    }
}

/// Appends the member for an optional string.
fn push_opt_string(members: &mut Vec<(&'static str, String)>, key: &'static str, o: &Option<String>)
    ensures
        members_view(final(members)@) == members_view(old(members)@) + string_member(
            key@,
            opt_view(*o),
        ),
{
    match o {
        Some(s) => {
            push_string(members, key, s);
            proof {
                assert(members_view(old(members)@) + string_member(key@, opt_view(*o))
                    =~= members_view(old(members)@).push((key@, json_string_of(s@))));
            }
        },
        None => {
            proof {
                assert(members_view(old(members)@) + string_member(key@, opt_view(*o))
                    =~= members_view(old(members)@));
            }
        },
    }
}

/// Appends the member for an optional icon.
fn push_icon(members: &mut Vec<(&'static str, String)>, o: &Option<Icon>)
    ensures
        members_view(final(members)@) == members_view(old(members)@) + icon_member(
            opt_icon_view(*o),
        ),
{
    match o {
        Some(i) => {
            let j = i.to_json();
            push_member(members, "icon", j);
            proof {
                assert(members_view(old(members)@) + icon_member(opt_icon_view(*o))
                    =~= members_view(old(members)@).push(("icon"@, icon_json(i@))));
            }
        },
        None => {
            proof {
                assert(members_view(old(members)@) + icon_member(opt_icon_view(*o))
                    =~= members_view(old(members)@));
            }
        },
    }
}

/// Appends the member for an optional validity.
fn push_valid(members: &mut Vec<(&'static str, String)>, o: Option<bool>)
    ensures
        members_view(final(members)@) == members_view(old(members)@) + valid_member(o),
{
    match o {
        Some(b) => {
            let v = if b {
                String::from_str("true")
            } else {
                String::from_str("false")
            };
            push_member(members, "valid", v);
            proof {
                assert(members_view(old(members)@) + valid_member(o) =~= members_view(
                    old(members)@,
                ).push(("valid"@, bool_json(b))));
            }
        },
        None => {
            proof {
                assert(members_view(old(members)@) + valid_member(o) =~= members_view(
                    old(members)@,
                ));
            }
        },
    }
}

/// The view of an optional icon.
pub open spec fn opt_icon_view(o: Option<Icon>) -> Option<IconView> {
    match o {
        Some(i) => Some(i@),
        None => None,
    }
}

/// The text that is copied, or shown in large type, for an item.
#[derive(Debug, Clone, PartialEq, Eq, Hash)]
pub struct Text {
    copy: Option<String>,
    large_type: Option<String>,
}

/// What a text holds.
pub struct TextView {
    pub copy: Option<Seq<char>>,
    pub large_type: Option<Seq<char>>,
}

impl View for Text {
    type V = TextView;

    closed spec fn view(&self) -> TextView {
        TextView { copy: opt_view(self.copy), large_type: opt_view(self.large_type) }
    }
}

/// The members of a text's object, in order.
pub open spec fn text_members(t: TextView) -> Seq<(Seq<char>, Seq<char>)> {
    string_member("copy"@, t.copy) + string_member("largetype"@, t.large_type)
}

/// A text's object.
pub open spec fn text_json(t: TextView) -> Seq<char> {
    object(text_members(t))
}

impl Text {
    /// Text with neither field set.
    pub fn new() -> (r: Text)
        ensures
            r@ == (TextView { copy: None, large_type: None }),
    {
        Text { copy: None, large_type: None }
    }

    /// Sets the text that is copied.
    pub fn copy(self, value: &str) -> (r: Text)
        ensures
            r@ == (TextView { copy: Some(value@), ..self@ }),
    {
        Text { copy: Some(String::from_str(value)), ..self }
    }

    /// Sets the text that is shown in large type.
    pub fn large_type(self, value: &str) -> (r: Text)
        ensures
            r@ == (TextView { large_type: Some(value@), ..self@ }),
    {
        Text { large_type: Some(String::from_str(value)), ..self }
    }

    /// The text's object in the document.
    pub fn to_json(&self) -> (r: String)
        ensures
            r@ == text_json(self@),
    {
        let mut members: Vec<(&'static str, String)> = Vec::new();
        push_opt_string(&mut members, "copy", &self.copy);
        push_opt_string(&mut members, "largetype", &self.large_type);
        proof {
            assert(members_view(members@) =~= text_members(self@));
        }
        render_object(&members)
    }
}

/// What changes in an item while a modifier key is held.
#[derive(Debug, Clone, PartialEq, Eq, Hash)]
pub struct ModifierData {
    subtitle: Option<String>,
    arg: Option<String>,
    icon: Option<Icon>,
    valid: Option<bool>,
}

/// What a modifier override holds.
pub struct ModifierDataView {
    pub subtitle: Option<Seq<char>>,
    pub arg: Option<Seq<char>>,
    pub icon: Option<IconView>,
    pub valid: Option<bool>,
}

impl View for ModifierData {
    type V = ModifierDataView;

    closed spec fn view(&self) -> ModifierDataView {
        ModifierDataView {
            subtitle: opt_view(self.subtitle),
            arg: opt_view(self.arg),
            icon: opt_icon_view(self.icon),
            valid: self.valid,
        }
    }
}

/// The members of a modifier override's object, in order.
pub open spec fn modifier_members(d: ModifierDataView) -> Seq<(Seq<char>, Seq<char>)> {
    string_member("subtitle"@, d.subtitle) + string_member("arg"@, d.arg) + icon_member(d.icon)
        + valid_member(d.valid)
}

/// A modifier override's object.
pub open spec fn modifier_json(d: ModifierDataView) -> Seq<char> {
    object(modifier_members(d))
}

impl ModifierData {
    /// Modifier data with no field set.
    pub fn new() -> (r: ModifierData)
        ensures
            r@ == (ModifierDataView { subtitle: None, arg: None, icon: None, valid: None }),
    {
        ModifierData { subtitle: None, arg: None, icon: None, valid: None }
    }

    /// Sets the subtitle.
    pub fn subtitle(self, value: &str) -> (r: ModifierData)
        ensures
            r@ == (ModifierDataView { subtitle: Some(value@), ..self@ }),
    {
        ModifierData { subtitle: Some(String::from_str(value)), ..self }
    }

    /// Sets the argument passed on to the output.
    pub fn arg(self, value: &str) -> (r: ModifierData)
        ensures
            r@ == (ModifierDataView { arg: Some(value@), ..self@ }),
    {
        ModifierData { arg: Some(String::from_str(value)), ..self }
    }

    /// Sets the icon.
    pub fn icon(self, value: Icon) -> (r: ModifierData)
        ensures
            r@ == (ModifierDataView { icon: Some(value@), ..self@ }),
    {
        ModifierData { icon: Some(value), ..self }
    }

    /// Sets whether the item is valid.
    pub fn valid(self, value: bool) -> (r: ModifierData)
        ensures
            r@ == (ModifierDataView { valid: Some(value), ..self@ }),
    {
        ModifierData { valid: Some(value), ..self }
    }

    /// The modifier data's object in the document.
    pub fn to_json(&self) -> (r: String)
        ensures
            r@ == modifier_json(self@),
    {
        let mut members: Vec<(&'static str, String)> = Vec::new();
        push_opt_string(&mut members, "subtitle", &self.subtitle);
        push_opt_string(&mut members, "arg", &self.arg);
        push_icon(&mut members, &self.icon);
        push_valid(&mut members, self.valid);
        proof {
            assert(members_view(members@) =~= modifier_members(self@));
        }
        render_object(&members)
    }
}

/// One result row.
#[derive(Debug, Clone, PartialEq, Eq)]
pub struct Item {
    title: String,
    subtitle: Option<String>,
    uid: Option<String>,
    arg: Option<String>,
    icon: Option<Icon>,
    valid: Option<bool>,
    matches: Option<String>,
    autocomplete: Option<String>,
    kind: Kind,
    // Pairs with unique keys, kept in the order of their first setting, so
    // that the document's `mods` object comes out in a fixed order.
    modifiers: Vec<(ModifierKey, ModifierData)>,
    text: Option<Text>,
    quicklook_url: Option<String>,
}

/// What an item holds.
pub struct ItemView {
    pub title: Seq<char>,
    pub subtitle: Option<Seq<char>>,
    pub uid: Option<Seq<char>>,
    pub arg: Option<Seq<char>>,
    pub icon: Option<IconView>,
    pub valid: Option<bool>,
    pub matches: Option<Seq<char>>,
    pub autocomplete: Option<Seq<char>>,
    pub kind: Kind,
    /// The overrides, each key at most once, in the order of their first setting.
    pub modifiers: Seq<(ModifierKey, ModifierDataView)>,
    pub text: Option<TextView>,
    pub quicklook_url: Option<Seq<char>>,
}

/// The view of an optional text.
pub open spec fn opt_text_view(o: Option<Text>) -> Option<TextView> {
    match o {
        Some(t) => Some(t@),
        None => None,
    }
}

/// The view of the overrides, in order.
pub open spec fn modifiers_view(m: Seq<(ModifierKey, ModifierData)>) -> Seq<(ModifierKey, ModifierDataView)> {
    m.map_values(|p: (ModifierKey, ModifierData)| (p.0, p.1@))
}

impl View for Item {
    type V = ItemView;

    closed spec fn view(&self) -> ItemView {
        ItemView {
            title: self.title@,
            subtitle: opt_view(self.subtitle),
            uid: opt_view(self.uid),
            arg: opt_view(self.arg),
            icon: opt_icon_view(self.icon),
            valid: self.valid,
            matches: opt_view(self.matches),
            autocomplete: opt_view(self.autocomplete),
            kind: self.kind,
            modifiers: modifiers_view(self.modifiers@),
            text: opt_text_view(self.text),
            quicklook_url: opt_view(self.quicklook_url),
        }
    }
}

/// No modifier key occurs twice.
pub open spec fn keys_unique(m: Seq<(ModifierKey, ModifierDataView)>) -> bool {
    forall|i: int, j: int| 0 <= i < j < m.len() ==> m[i].0 != m[j].0
}

/// `i` is the first position of the key `k` in `m`.
pub open spec fn first_position(m: Seq<(ModifierKey, ModifierDataView)>, k: ModifierKey, i: int) -> bool {
    0 <= i < m.len() && m[i].0 == k && forall|j: int| 0 <= j < i ==> m[j].0 != k
}

/// `m` with the override for `k` set to `d`: in place where `k` has one, else
/// at the end.
pub open spec fn put_modifier(
    m: Seq<(ModifierKey, ModifierDataView)>,
    k: ModifierKey,
    d: ModifierDataView,
) -> Seq<(ModifierKey, ModifierDataView)> {
    if exists|i: int| first_position(m, k, i) {
        m.update(choose|i: int| first_position(m, k, i), (k, d))
    } else {
        m.push((k, d))
    }
}

/// The members of the object of overrides, keyed by the modifier's name.
pub open spec fn mods_members(m: Seq<(ModifierKey, ModifierDataView)>) -> Seq<(Seq<char>, Seq<char>)> {
    m.map_values(|p: (ModifierKey, ModifierDataView)| (p.0.spec_name(), modifier_json(p.1)))
}

/// The member for the overrides: none where there are none.
pub open spec fn mods_member(m: Seq<(ModifierKey, ModifierDataView)>) -> Seq<(Seq<char>, Seq<char>)> {
    if m.len() == 0 {
        Seq::empty()
    } else {
        seq![("mods"@, object(mods_members(m)))]
    }
}

/// The member for the kind: none for the default kind.
pub open spec fn kind_member(k: Kind) -> Seq<(Seq<char>, Seq<char>)> {
    if k == Kind::Default {
        Seq::empty()
    } else {
        seq![("type"@, k.spec_json())]
    }
}

/// The member for the optional text: none where it is absent.
pub open spec fn text_member(o: Option<TextView>) -> Seq<(Seq<char>, Seq<char>)> {
    match o {
        Some(t) => seq![("text"@, text_json(t))],
        None => Seq::empty(),
    }
}

/// The members of an item's object, in order.
pub open spec fn item_members(v: ItemView) -> Seq<(Seq<char>, Seq<char>)> {
    seq![("title"@, json_string_of(v.title))] + string_member("subtitle"@, v.subtitle)
        + string_member("uid"@, v.uid) + string_member("arg"@, v.arg) + icon_member(v.icon)
        + valid_member(v.valid) + string_member("match"@, v.matches) + string_member(
        "autocomplete"@,
        v.autocomplete,
    ) + kind_member(v.kind) + mods_member(v.modifiers) + text_member(v.text) + string_member(
        "quicklookurl"@,
        v.quicklook_url,
    )
}

/// An item's object.
pub open spec fn item_json(v: ItemView) -> Seq<char> {
    object(item_members(v))
}

impl Item {
    /// The overrides hold each modifier key at most once.
    pub open spec fn wf(&self) -> bool {
        keys_unique(self@.modifiers)
    }

    /// An item with the given title and nothing else set.
    pub fn new(title: &str) -> (r: Item)
        ensures
            r.wf(),
            r@ == (ItemView {
                title: title@,
                subtitle: None,
                uid: None,
                arg: None,
                icon: None,
                valid: None,
                matches: None,
                autocomplete: None,
                kind: Kind::Default,
                modifiers: Seq::empty(),
                text: None,
                quicklook_url: None,
            }),
    {
        let r = Item {
            title: String::from_str(title),
            subtitle: None,
            uid: None,
            arg: None,
            icon: None,
            valid: None,
            matches: None,
            autocomplete: None,
            kind: Kind::Default,
            modifiers: Vec::new(),
            text: None,
            quicklook_url: None,
        };
        proof {
            assert(r@.modifiers =~= Seq::empty());
        }
        r
    }

    /// Sets the subtitle.
    pub fn subtitle(self, value: &str) -> (r: Item)
        ensures
            r@ == (ItemView { subtitle: Some(value@), ..self@ }),
    {
        Item { subtitle: Some(String::from_str(value)), ..self }
    }

    /// Sets the unique identifier.
    pub fn uid(self, value: &str) -> (r: Item)
        ensures
            r@ == (ItemView { uid: Some(value@), ..self@ }),
    {
        Item { uid: Some(String::from_str(value)), ..self }
    }

    /// Sets the argument passed on to the output.
    pub fn arg(self, value: &str) -> (r: Item)
        ensures
            r@ == (ItemView { arg: Some(value@), ..self@ }),
    {
        Item { arg: Some(String::from_str(value)), ..self }
    }

    /// Sets the icon.
    pub fn icon(self, value: Icon) -> (r: Item)
        ensures
            r@ == (ItemView { icon: Some(value@), ..self@ }),
    {
        Item { icon: Some(value), ..self }
    }

    /// Sets whether the item is valid.
    pub fn valid(self, value: bool) -> (r: Item)
        ensures
            r@ == (ItemView { valid: Some(value), ..self@ }),
    {
        Item { valid: Some(value), ..self }
    }

    /// Sets the text that the launcher matches the query against.
    pub fn matches(self, value: &str) -> (r: Item)
        ensures
            r@ == (ItemView { matches: Some(value@), ..self@ }),
    {
        Item { matches: Some(String::from_str(value)), ..self }
    }

    /// Sets the text that completes the query.
    pub fn autocomplete(self, value: &str) -> (r: Item)
        ensures
            r@ == (ItemView { autocomplete: Some(value@), ..self@ }),
    {
        Item { autocomplete: Some(String::from_str(value)), ..self }
    }

    /// Sets the kind.
    pub fn kind(self, value: Kind) -> (r: Item)
        ensures
            r@ == (ItemView { kind: value, ..self@ }),
    {
        Item { kind: value, ..self }
    }

    /// Sets the copied and large type text.
    pub fn text(self, value: Text) -> (r: Item)
        ensures
            r@ == (ItemView { text: Some(value@), ..self@ }),
    {
        Item { text: Some(value), ..self }
    }

    /// Sets the quick look URL.
    pub fn quicklook_url(self, value: &str) -> (r: Item)
        ensures
            r@ == (ItemView { quicklook_url: Some(value@), ..self@ }),
    {
        Item { quicklook_url: Some(String::from_str(value)), ..self }
    }

    /// Sets the override for the modifier `key`, replacing an earlier one.
    pub fn modifier(self, key: ModifierKey, data: ModifierData) -> (r: Item)
        ensures
            self.wf() ==> r.wf(),
            r@ == (ItemView { modifiers: put_modifier(self@.modifiers, key, data@), ..self@ }),
    {
        let Item {
            title,
            subtitle,
            uid,
            arg,
            icon,
            valid,
            matches,
            autocomplete,
            kind,
            modifiers,
            text,
            quicklook_url,
        } = self;
        let mut mods = modifiers;
        let ghost m = modifiers_view(mods@);
        let ghost dv = data@;
        let mut i: usize = 0;
        while i < mods.len() && mods[i].0 != key
            invariant
                i <= mods.len(),
                m == modifiers_view(mods@),
                forall|j: int| 0 <= j < i ==> m[j].0 != key,
            decreases mods.len() - i,
        {
            i = i + 1;
        }
        if i < mods.len() {
            mods.set(i, (key, data));
            proof {
                assert(first_position(m, key, i as int));
                let c = choose|j: int| first_position(m, key, j);
                if c < i {
                    assert(m[c].0 != key);
                } else if c > i {
                    assert(m[i as int].0 != key);
                }
                assert(c == i as int);
                assert(modifiers_view(mods@) =~= put_modifier(m, key, dv));
            }
        } else {
            mods.push((key, data));
            proof {
                assert(!exists|j: int| first_position(m, key, j));
                assert(modifiers_view(mods@) =~= put_modifier(m, key, dv));
            }
        }
        Item {
            title,
            subtitle,
            uid,
            arg,
            icon,
            valid,
            matches,
            autocomplete,
            kind,
            modifiers: mods,
            text,
            quicklook_url,
        }
    }

    /// The item's object in the document.
    pub fn to_json(&self) -> (r: String)
        ensures
            r@ == item_json(self@),
    {
        let mut members: Vec<(&'static str, String)> = Vec::new();
        proof {
            assert(members_view(members@) =~= Seq::empty());
        }
        push_string(&mut members, "title", &self.title);
        proof {
            assert(members_view(members@) =~= seq![("title"@, json_string_of(self@.title))]);
        }
        push_opt_string(&mut members, "subtitle", &self.subtitle);
        push_opt_string(&mut members, "uid", &self.uid);
        push_opt_string(&mut members, "arg", &self.arg);
        push_icon(&mut members, &self.icon);
        push_valid(&mut members, self.valid);
        push_opt_string(&mut members, "match", &self.matches);
        push_opt_string(&mut members, "autocomplete", &self.autocomplete);
        let ghost before_kind = members_view(members@);
        if self.kind != Kind::Default {
            push_member(&mut members, "type", self.kind.to_json());
        }
        proof {
            assert(members_view(members@) =~= before_kind + kind_member(self@.kind));
        }
        let ghost before_mods = members_view(members@);
        if self.modifiers.len() > 0 {
            let m = self.render_modifiers();
            push_member(&mut members, "mods", m);
        }
        proof {
            assert(members_view(members@) =~= before_mods + mods_member(self@.modifiers));
        }
        let ghost before_text = members_view(members@);
        match &self.text {
            Some(t) => {
                let j = t.to_json();
                push_member(&mut members, "text", j);
            },
            None => {},
        }
        proof {
            assert(members_view(members@) =~= before_text + text_member(self@.text));
        }
        push_opt_string(&mut members, "quicklookurl", &self.quicklook_url);
        proof {
            assert(members_view(members@) == item_members(self@));
        }
        render_object(&members)
    }

    /// The object of overrides, keyed by the modifier's name.
    fn render_modifiers(&self) -> (r: String)
        ensures
            r@ == object(mods_members(self@.modifiers)),
    {
        let mut members: Vec<(&'static str, String)> = Vec::new();
        let mut i: usize = 0;
        while i < self.modifiers.len()
            invariant
                i <= self.modifiers.len(),
                members_view(members@) =~= mods_members(self@.modifiers.take(i as int)),
            decreases self.modifiers.len() - i,
        {
            let (k, d) = &self.modifiers[i];
            let j = d.to_json();
            let ghost before = members_view(members@);
            push_member(&mut members, k.name(), j);
            proof {
                assert(self@.modifiers.take(i as int + 1) =~= self@.modifiers.take(i as int).push(
                    self@.modifiers[i as int],
                ));
                assert(self@.modifiers[i as int] == (*k, d@));
            }
            i = i + 1;
        }
        proof {
            assert(self@.modifiers.take(self.modifiers.len() as int) =~= self@.modifiers);
        }
        render_object(&members)
    }
}

/// A whole document: the items, in order.
#[derive(Debug, Clone, PartialEq, Eq)]
pub struct Output {
    items: Vec<Item>,
}

impl View for Output {
    type V = Seq<ItemView>;

    closed spec fn view(&self) -> Seq<ItemView> {
        self.items@.map_values(|i: Item| i@)
    }
}

/// The document for the given items.
pub open spec fn output_json(items: Seq<ItemView>) -> Seq<char> {
    object(seq![("items"@, array(items.map_values(|v: ItemView| item_json(v))))])
}

impl Default for Output {
    fn default() -> (r: Output)
        ensures
            r@ == Seq::<ItemView>::empty(),
    {
        Output::new()
    }
}

impl Output {
    /// A document with no items.
    pub fn new() -> (r: Output)
        ensures
            r@ == Seq::<ItemView>::empty(),
    {
        let r = Output { items: Vec::new() };
        proof {
            assert(r@ =~= Seq::<ItemView>::empty());
        }
        r
    }

    /// Replaces the items with `items`, in their order.
    pub fn items(self, items: Vec<Item>) -> (r: Output)
        ensures
            r@ == items@.map_values(|i: Item| i@),
    {
        Output { items }
    }

    /// The document's text.
    pub fn to_json(&self) -> (r: String)
        ensures
            r@ == output_json(self@),
    {
        let mut elems: Vec<String> = Vec::new();
        let mut i: usize = 0;
        while i < self.items.len()
            invariant
                i <= self.items.len(),
                strings_view(elems@) =~= self@.take(i as int).map_values(|v: ItemView| item_json(v)),
            decreases self.items.len() - i,
        {
            let j = self.items[i].to_json();
            let ghost before = elems@;
            elems.push(j);
            proof {
                assert(elems@ =~= before.push(j));
                assert(strings_view(before.push(j)) =~= strings_view(before).push(j@));
                assert(self@.take(i as int + 1) =~= self@.take(i as int).push(self@[i as int]));
                assert(self@[i as int] == self.items@[i as int]@);
            }
            i = i + 1;
        }
        proof {
            assert(self@.take(self.items.len() as int) =~= self@);
        }
        let arr = render_array(&elems);
        let mut members: Vec<(&'static str, String)> = Vec::new();
        push_member(&mut members, "items", arr);
        proof {
            assert(members_view(members@) =~= seq![("items"@, array(self@.map_values(|v: ItemView| item_json(v))))]);
        }
        render_object(&members)
    }
}

} // verus!
