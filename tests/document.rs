use powerpack::{is_default, output, Icon, Item, Kind, ModifierData, ModifierKey, Output, Text};

fn doc(items: Vec<Item>) -> String {
    Output::new().items(items).to_json()
}

fn item_json(item: &Item) -> String {
    item.to_json()
}

#[test]
fn title_subtitle_arg_document() {
    let item = Item::new("Example title").subtitle("example subtitle").arg("example");
    assert_eq!(
        doc(vec![item]),
        r#"{"items":[{"title":"Example title","subtitle":"example subtitle","arg":"example"}]}"#
    );
}

#[test]
fn output_shortcut_matches_document() {
    let item = Item::new("Example title").subtitle("example subtitle").arg("example");
    assert_eq!(
        output(vec![item]),
        r#"{"items":[{"title":"Example title","subtitle":"example subtitle","arg":"example"}]}"#
    );
}

#[test]
fn file_icon_and_command_override() {
    let item = Item::new("Safari")
        .icon(Icon::with_file_icon("/Applications/Safari.app"))
        .modifier(ModifierKey::Command, ModifierData::new().valid(false));
    let s = item_json(&item);
    assert!(s.contains(r#""icon":{"type":"fileicon","path":"/Applications/Safari.app"}"#));
    assert!(s.contains(r#""mods":{"cmd":{"valid":false}}"#));
    assert_eq!(
        s,
        r#"{"title":"Safari","icon":{"type":"fileicon","path":"/Applications/Safari.app"},"mods":{"cmd":{"valid":false}}}"#
    );
}

#[test]
fn empty_output() {
    assert_eq!(doc(vec![]), r#"{"items":[]}"#);
    assert_eq!(Output::default().to_json(), r#"{"items":[]}"#);
}

#[test]
fn unset_fields_are_left_out() {
    assert_eq!(item_json(&Item::new("t")), r#"{"title":"t"}"#);
    assert_eq!(ModifierData::new().to_json(), "{}");
    assert_eq!(Text::new().to_json(), "{}");
}

#[test]
fn every_item_field() {
    let item = Item::new("t")
        .subtitle("s")
        .uid("u")
        .arg("a")
        .icon(Icon::with_image("i.png"))
        .valid(true)
        .matches("m")
        .autocomplete("ac")
        .kind(Kind::File)
        .modifier(ModifierKey::Option, ModifierData::new().subtitle("ms"))
        .text(Text::new().copy("c").large_type("l"))
        .quicklook_url("q");
    assert_eq!(
        item_json(&item),
        r#"{"title":"t","subtitle":"s","uid":"u","arg":"a","icon":{"path":"i.png"},"valid":true,"match":"m","autocomplete":"ac","type":"file","mods":{"alt":{"subtitle":"ms"}},"text":{"copy":"c","largetype":"l"},"quicklookurl":"q"}"#
    );
}

#[test]
fn default_kind_is_left_out() {
    assert!(!item_json(&Item::new("t")).contains("\"type\""));
    assert!(!item_json(&Item::new("t").kind(Kind::Default)).contains("\"type\""));
    assert_eq!(item_json(&Item::new("t").kind(Kind::File)), r#"{"title":"t","type":"file"}"#);
    assert_eq!(
        item_json(&Item::new("t").kind(Kind::FileSkipCheck)),
        r#"{"title":"t","type":"file:skipcheck"}"#
    );
    assert!(is_default(&Kind::Default));
    assert!(!is_default(&Kind::File));
    assert_eq!(Kind::default(), Kind::Default);
    assert_eq!(Kind::Default.to_json(), "\"default\"");
}

#[test]
fn modifiers_appear_only_when_set() {
    assert!(!item_json(&Item::new("t")).contains("mods"));
    let item = Item::new("t").modifier(ModifierKey::Shift, ModifierData::new().arg("x"));
    assert_eq!(item_json(&item), r#"{"title":"t","mods":{"shift":{"arg":"x"}}}"#);
}

#[test]
fn modifier_names() {
    assert_eq!(ModifierKey::Command.name(), "cmd");
    assert_eq!(ModifierKey::Option.name(), "alt");
    assert_eq!(ModifierKey::Control.name(), "ctrl");
    assert_eq!(ModifierKey::Shift.name(), "shift");
    assert_eq!(ModifierKey::Function.name(), "fn");
}

#[test]
fn later_modifier_replaces_earlier() {
    let item = Item::new("t")
        .modifier(ModifierKey::Control, ModifierData::new().arg("one"))
        .modifier(ModifierKey::Function, ModifierData::new().valid(true))
        .modifier(ModifierKey::Control, ModifierData::new().arg("two"));
    assert_eq!(
        item_json(&item),
        r#"{"title":"t","mods":{"ctrl":{"arg":"two"},"fn":{"valid":true}}}"#
    );
}

#[test]
fn renamed_keys() {
    let s = item_json(&Item::new("t").matches("m").quicklook_url("https://example.com"));
    assert_eq!(s, r#"{"title":"t","match":"m","quicklookurl":"https://example.com"}"#);
    assert!(!s.contains("matches"));
    assert!(!s.contains("quicklook_url"));
}

#[test]
fn icon_shapes() {
    assert_eq!(Icon::with_image("./icon.png").to_json(), r#"{"path":"./icon.png"}"#);
    assert_eq!(
        Icon::with_file_icon("./example.jpg").to_json(),
        r#"{"type":"fileicon","path":"./example.jpg"}"#
    );
    assert_eq!(
        Icon::with_type("public.jpeg").to_json(),
        r#"{"type":"filetype","path":"public.jpeg"}"#
    );
}

#[test]
fn items_keep_their_order() {
    let d = doc(vec![Item::new("A"), Item::new("B"), Item::new("C")]);
    assert_eq!(d, r#"{"items":[{"title":"A"},{"title":"B"},{"title":"C"}]}"#);
}

#[test]
fn strings_are_escaped() {
    assert_eq!(item_json(&Item::new("say \"hi\"\n\\")), r#"{"title":"say \"hi\"\n\\"}"#);
}

#[test]
fn modifier_data_fields() {
    let d = ModifierData::new()
        .subtitle("s")
        .arg("a")
        .icon(Icon::with_type("public.folder"))
        .valid(false);
    assert_eq!(
        d.to_json(),
        r#"{"subtitle":"s","arg":"a","icon":{"type":"filetype","path":"public.folder"},"valid":false}"#
    );
}

#[test]
fn text_fields_left_out_when_unset() {
    assert_eq!(Text::new().copy("c").to_json(), r#"{"copy":"c"}"#);
    assert_eq!(Text::new().large_type("l").to_json(), r#"{"largetype":"l"}"#);
}

#[test]
fn setter_last_call_wins() {
    let item = Item::new("t").subtitle("first").subtitle("second");
    assert_eq!(item_json(&item), r#"{"title":"t","subtitle":"second"}"#);
}

#[test]
fn control_characters_are_escaped() {
    assert_eq!(
        item_json(&Item::new("a\u{8}\t\u{c}\r\u{1}\u{1f}/é")),
        r#"{"title":"a\b\t\f\r\u0001\u001f/é"}"#
    );
}
