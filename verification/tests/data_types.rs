use blueprint::data_types::{AppData, Command, Enum, Method, Struct, Trait};
use blueprint::text::{Span, TextLine, Tone};

fn styled(spans: &[(&str, Tone)]) -> Vec<(String, Tone)> {
    spans.iter().map(|(t, tone)| (t.to_string(), *tone)).collect()
}

fn line_spans(line: &TextLine) -> Option<Vec<(String, Tone)>> {
    match line {
        TextLine::Styled(spans) => Some(spans.iter().map(|s: &Span| (s.text.clone(), s.tone)).collect()),
        TextLine::Raw(_) => None,
    }
}

fn line_raw(line: &TextLine) -> Option<String> {
    match line {
        TextLine::Raw(s) => Some(s.clone()),
        TextLine::Styled(_) => None,
    }
}

#[test]
fn new_struct_is_named_placeholder_without_fields() {
    let s = Struct::new();
    assert_eq!(s.name, "New Struct");
    assert_eq!(s.description, "");
    assert!(s.fields.is_empty());
    let e = Struct::empty();
    assert_eq!(e.name, "");
    assert!(e.fields.is_empty());
}

#[test]
fn add_field_appends_empty_field() {
    let mut s = Struct::new();
    s.add_field();
    s.add_field();
    assert_eq!(s.fields.len(), 2);
    assert_eq!(s.fields[1].name, "");
    assert_eq!(s.fields[1].field_type, "");
    assert_eq!(s.fields[1].note, "");
}

#[test]
fn new_enum_has_one_empty_variant() {
    let mut e = Enum::new();
    assert_eq!(e.name, "New Enum");
    assert_eq!(e.variants.len(), 1);
    assert_eq!(e.variants[0].name, "");
    e.add_variant();
    assert_eq!(e.variants.len(), 2);
    assert!(Enum::empty().variants.is_empty());
}

#[test]
fn new_trait_has_one_method_without_arguments() {
    let mut t = Trait::new();
    assert_eq!(t.name, "New Trait");
    assert_eq!(t.methods.len(), 1);
    assert!(t.methods[0].arguments.is_empty());
    t.add_method();
    assert_eq!(t.methods.len(), 2);
    assert_eq!(t.methods[1].arguments.len(), 1);
    let mut m = Method::new();
    m.add_argument();
    assert_eq!(m.arguments.len(), 2);
    assert_eq!(m.arguments[1].argument_type, "");
}

#[test]
fn app_data_adders_append_new_items() {
    let mut d = AppData::default();
    d.add_struct();
    d.add_enum();
    d.add_trait();
    d.add_command();
    assert_eq!(d.structs.len(), 1);
    assert_eq!(d.structs[0].name, "New Struct");
    assert_eq!(d.enums[0].name, "New Enum");
    assert_eq!(d.traits[0].name, "New Trait");
    assert_eq!(d.cli_commands[0].name, "");
    assert_eq!(d.cli_commands[0].description, "");
}

#[test]
fn struct_preview_lines() {
    let mut s = Struct::new();
    s.name = "Point".to_string();
    s.description = "A point".to_string();
    s.add_field();
    s.fields[0].name = "x".to_string();
    s.fields[0].note = "across".to_string();
    s.add_field();
    s.fields[1].name = "y".to_string();
    s.fields[1].field_type = "i32".to_string();
    let lines = s.to_list_item();
    assert_eq!(lines.len(), 7);
    assert_eq!(line_spans(&lines[0]).unwrap(), styled(&[("/// ", Tone::DarkGray), ("A point", Tone::DarkGray)]));
    assert_eq!(line_spans(&lines[1]).unwrap(), styled(&[("struct ", Tone::Magenta), ("Point", Tone::Plain), (" {", Tone::Plain)]));
    assert_eq!(line_spans(&lines[2]).unwrap(), styled(&[("    /// ", Tone::DarkGray), ("across", Tone::DarkGray)]));
    assert_eq!(
        line_spans(&lines[3]).unwrap(),
        styled(&[("    ", Tone::Plain), ("x", Tone::Yellow), (": ", Tone::Plain), ("unknown...", Tone::DarkGray), (",", Tone::Plain)])
    );
    assert_eq!(
        line_spans(&lines[4]).unwrap(),
        styled(&[("    ", Tone::Plain), ("y", Tone::Yellow), (": ", Tone::Plain), ("i32", Tone::Plain), (",", Tone::Plain)])
    );
    assert_eq!(line_raw(&lines[5]).unwrap(), "}");
    assert_eq!(line_raw(&lines[6]).unwrap(), "\n");
}

#[test]
fn enum_preview_lines() {
    let mut e = Enum::new();
    e.name = "Color".to_string();
    e.variants[0].name = "Red".to_string();
    let lines = e.to_list_item();
    assert_eq!(lines.len(), 4);
    assert_eq!(line_spans(&lines[0]).unwrap(), styled(&[("enum ", Tone::Magenta), ("Color", Tone::Plain), (" {", Tone::Plain)]));
    assert_eq!(line_spans(&lines[1]).unwrap(), styled(&[("    ", Tone::Plain), ("Red", Tone::Yellow), (",", Tone::Plain)]));
    assert_eq!(line_raw(&lines[2]).unwrap(), "}");
}

#[test]
fn trait_preview_lines() {
    let mut t = Trait::new();
    t.name = "Shape".to_string();
    t.methods[0].name = "area".to_string();
    t.methods[0].return_type = "f64".to_string();
    t.add_method();
    t.methods[1].name = "scale".to_string();
    t.methods[1].arguments[0].name = "k".to_string();
    let lines = t.to_list_item();
    // header, [fn area, return, blank], [fn scale, arg, return, blank], }, "", ""
    assert_eq!(lines.len(), 11);
    assert_eq!(line_spans(&lines[1]).unwrap(), styled(&[("    fn ", Tone::Plain), ("area", Tone::Cyan), (" (", Tone::Plain)]));
    assert_eq!(line_spans(&lines[2]).unwrap(), styled(&[("    ) -> ", Tone::Plain), ("f64", Tone::Plain), (";", Tone::Plain)]));
    assert_eq!(line_spans(&lines[3]).unwrap(), Vec::<(String, Tone)>::new());
    assert_eq!(
        line_spans(&lines[5]).unwrap(),
        styled(&[("        ", Tone::Plain), ("k", Tone::Yellow), (": ", Tone::Plain), ("unknown...", Tone::DarkGray)])
    );
    assert_eq!(line_spans(&lines[6]).unwrap(), styled(&[("    );", Tone::Plain)]));
    assert_eq!(line_raw(&lines[8]).unwrap(), "}");
    assert_eq!(line_raw(&lines[9]).unwrap(), "");
    assert_eq!(line_raw(&lines[10]).unwrap(), "");
}

#[test]
fn command_preview_lines() {
    let c = Command { name: "build".to_string(), description: String::new() };
    let lines = c.to_list_item();
    assert_eq!(lines.len(), 2);
    assert_eq!(line_raw(&lines[0]).unwrap(), "build");
    assert_eq!(line_raw(&lines[1]).unwrap(), "\n");
    let c = Command { name: "build".to_string(), description: "cargo build".to_string() };
    assert_eq!(c.to_list_item().len(), 3);
}
