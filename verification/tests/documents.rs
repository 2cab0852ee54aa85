use dwl_launcher::documents::{
    decode_envs, decode_service, decode_services, envs_from, envs_value, parse_envs,
    parse_services, render_envs, render_services, rendered_from, service_value, services_from,
    services_value, ParseFault,
};
use dwl_launcher::envs::{default_envs, Envs};
use dwl_launcher::model::{Service, ServiceFile};

fn service(name: &str, command: &str) -> Service {
    Service { name: name.to_string(), command: command.to_string() }
}

fn table(pairs: Vec<(&str, toml::Value)>) -> toml::Value {
    let mut table = toml::Table::new();
    for (key, value) in pairs {
        table.insert(key.to_string(), value);
    }
    toml::Value::Table(table)
}

fn text(value: &str) -> toml::Value {
    toml::Value::String(value.to_string())
}

#[test]
fn services_are_read_in_the_documents_order() {
    let source = "[[service]]\nname = \"bar\"\nexec = \"waybar\"\n\n[[service]]\nname = \"A\"\nexec = \"echo 1\"\n";
    assert_eq!(
        parse_services(source),
        Ok(ServiceFile { service: vec![service("bar", "waybar"), service("A", "echo 1")] })
    );
}

#[test]
fn services_may_be_written_inline() {
    let source = "service = [ { name = \"A\", exec = \"echo 1\" }, { name = \"B\", exec = \"echo 2\" } ]\n";
    assert_eq!(
        parse_services(source),
        Ok(ServiceFile { service: vec![service("A", "echo 1"), service("B", "echo 2")] })
    );
}

#[test]
fn empty_list_of_services_is_accepted() {
    assert_eq!(parse_services("service = []\n"), Ok(ServiceFile { service: Vec::new() }));
}

#[test]
fn entries_under_other_keys_are_passed_over() {
    let source = "title = \"mine\"\n\n[[service]]\nname = \"A\"\nexec = \"a\"\nnote = 3\n";
    assert_eq!(parse_services(source), Ok(ServiceFile { service: vec![service("A", "a")] }));
}

#[test]
fn text_that_is_no_toml_is_a_fault_of_syntax() {
    match parse_services("service = [") {
        Err(ParseFault::Syntax { message }) => assert!(!message.is_empty()),
        other => panic!("unexpected: {other:?}"),
    }
    match parse_envs("A = ") {
        Err(ParseFault::Syntax { message }) => assert!(!message.is_empty()),
        other => panic!("unexpected: {other:?}"),
    }
}

#[test]
fn document_without_services_is_a_fault_of_shape() {
    assert_eq!(parse_services(""), Err(ParseFault::Shape));
    assert_eq!(parse_services("other = 1\n"), Err(ParseFault::Shape));
}

#[test]
fn services_of_the_wrong_kind_are_a_fault_of_shape() {
    assert_eq!(parse_services("service = \"waybar\"\n"), Err(ParseFault::Shape));
    assert_eq!(parse_services("service = [1, 2]\n"), Err(ParseFault::Shape));
    assert_eq!(parse_services("[service]\nname = \"A\"\nexec = \"a\"\n"), Err(ParseFault::Shape));
}

#[test]
fn service_without_a_field_is_a_fault_of_shape() {
    assert_eq!(parse_services("[[service]]\nname = \"A\"\n"), Err(ParseFault::Shape));
    assert_eq!(parse_services("[[service]]\nexec = \"a\"\n"), Err(ParseFault::Shape));
    assert_eq!(
        parse_services("[[service]]\nname = \"A\"\nexec = \"a\"\n\n[[service]]\nname = \"B\"\n"),
        Err(ParseFault::Shape)
    );
}

#[test]
fn service_field_that_is_no_string_is_a_fault_of_shape() {
    assert_eq!(parse_services("[[service]]\nname = 1\nexec = \"a\"\n"), Err(ParseFault::Shape));
    assert_eq!(parse_services("[[service]]\nname = \"A\"\nexec = true\n"), Err(ParseFault::Shape));
}

#[test]
fn envs_are_read_as_a_map() {
    let envs = parse_envs("B = \"2\"\nA = \"1\"\n").unwrap();
    assert_eq!(envs.get("A"), Some("1".to_string()));
    assert_eq!(envs.get("B"), Some("2".to_string()));
    assert_eq!(envs.entries().len(), 2);
}

#[test]
fn empty_envs_document_is_accepted() {
    let envs = parse_envs("").unwrap();
    assert_eq!(envs.entries().len(), 0);
}

#[test]
fn env_that_is_no_string_is_a_fault_of_shape() {
    assert!(matches!(parse_envs("A = 1\n"), Err(ParseFault::Shape)));
    assert!(matches!(parse_envs("A = \"1\"\n[B]\nC = \"2\"\n"), Err(ParseFault::Shape)));
    assert!(matches!(parse_envs("A = [\"1\"]\n"), Err(ParseFault::Shape)));
}

#[test]
fn fault_gives_its_cause() {
    assert_eq!(ParseFault::Shape.cause(), "the document does not have the expected shape");
    assert_eq!(ParseFault::Syntax { message: "expected `=`".to_string() }.cause(), "expected `=`");
}

#[test]
fn service_is_decoded_from_a_table() {
    let value = table(vec![("name", text("A")), ("exec", text("echo 1"))]);
    assert_eq!(decode_service(&value), Some(service("A", "echo 1")));
    assert_eq!(decode_service(&text("A")), None);
    assert_eq!(decode_service(&table(vec![("name", text("A"))])), None);
    assert_eq!(
        decode_service(&table(vec![("name", text("A")), ("exec", toml::Value::Integer(1))])),
        None
    );
}

#[test]
fn services_are_decoded_from_a_document() {
    let items = toml::Value::Array(vec![
        table(vec![("name", text("A")), ("exec", text("a"))]),
        table(vec![("name", text("B")), ("exec", text("b"))]),
    ]);
    let document = table(vec![("service", items)]);
    assert_eq!(
        decode_services(&document),
        Some(ServiceFile { service: vec![service("A", "a"), service("B", "b")] })
    );
    assert_eq!(decode_services(&table(vec![])), None);
    assert_eq!(decode_services(&toml::Value::Boolean(true)), None);
}

#[test]
fn envs_are_decoded_from_a_document() {
    let document = table(vec![("X", text("1")), ("Y", text("2"))]);
    let envs = decode_envs(&document).unwrap();
    assert_eq!(envs.get("X"), Some("1".to_string()));
    assert_eq!(envs.get("Y"), Some("2".to_string()));
    assert_eq!(envs.entries().len(), 2);
    assert!(decode_envs(&text("X")).is_none());
    assert!(decode_envs(&table(vec![("X", toml::Value::Integer(1))])).is_none());
}

#[test]
fn parsed_results_are_handed_on() {
    let good: Result<toml::Value, toml::de::Error> =
        toml::from_str::<toml::Table>("service = []").map(toml::Value::Table);
    assert_eq!(services_from(good), Ok(ServiceFile { service: Vec::new() }));
    let bad: Result<toml::Value, toml::de::Error> =
        toml::from_str::<toml::Table>("service = [").map(toml::Value::Table);
    let message = bad.clone().unwrap_err().message().to_string();
    assert_eq!(services_from(bad.clone()), Err(ParseFault::Syntax { message: message.clone() }));
    assert!(matches!(envs_from(bad), Err(ParseFault::Syntax { message: told }) if told == message));
}

#[test]
fn service_value_is_a_table_of_two_strings() {
    let value = service_value(&service("A", "echo 1"));
    assert_eq!(value, table(vec![("name", text("A")), ("exec", text("echo 1"))]));
}

#[test]
fn services_value_holds_the_services_in_order() {
    let file = ServiceFile { service: vec![service("A", "a"), service("B", "b")] };
    let items = toml::Value::Array(vec![
        table(vec![("name", text("A")), ("exec", text("a"))]),
        table(vec![("name", text("B")), ("exec", text("b"))]),
    ]);
    assert_eq!(services_value(&file), table(vec![("service", items)]));
    assert_eq!(decode_services(&services_value(&file)), Some(file));
}

#[test]
fn envs_value_is_a_table_of_strings() {
    let mut envs = Envs::new();
    envs.insert("B".to_string(), "2".to_string());
    envs.insert("A".to_string(), "1".to_string());
    assert_eq!(envs_value(&envs), table(vec![("A", text("1")), ("B", text("2"))]));
}

#[test]
fn default_services_are_rendered_as_an_array_of_tables() {
    let rendered = render_services(&ServiceFile::default()).unwrap();
    assert_eq!(
        rendered,
        "[[service]]\nexec = \"/sbin/systemctl --user import-environment DISPLAY WAYLAND_DISPLAY XDG_CURRENT_DESKTOP\"\nname = \"Import environment\"\n"
    );
}

#[test]
fn default_envs_are_rendered_as_two_lines() {
    let rendered = render_envs(&default_envs()).unwrap();
    assert_eq!(rendered, "XDG_CURRENT_DESKTOP = \"wlroots\"\nXDG_SESSION_TYPE = \"wayland\"\n");
}

#[test]
fn default_services_come_back_from_their_text() {
    let file = ServiceFile::default();
    let rendered = render_services(&file).unwrap();
    assert_eq!(parse_services(&rendered), Ok(file));
}

#[test]
fn default_envs_come_back_from_their_text() {
    let envs = default_envs();
    let rendered = render_envs(&envs).unwrap();
    let back = parse_envs(&rendered).unwrap();
    let mut expected = envs.entries();
    let mut found = back.entries();
    expected.sort_by(|a, b| a.name.cmp(&b.name));
    found.sort_by(|a, b| a.name.cmp(&b.name));
    assert_eq!(found, expected);
    assert_eq!(found.len(), 2);
}

#[test]
fn services_with_awkward_texts_come_back_from_their_text() {
    let file = ServiceFile {
        service: vec![service("say \"hi\"\n", "echo 'a' \\ b"), service("", "")],
    };
    let rendered = render_services(&file).unwrap();
    assert_eq!(parse_services(&rendered), Ok(file));
}

#[test]
fn rendered_text_is_handed_on() {
    assert_eq!(rendered_from(Ok("A = \"1\"\n".to_string())), Ok("A = \"1\"\n".to_string()));
}

#[test]
fn refusal_of_the_writer_gives_its_cause() {
    let fault = toml::to_string(&toml::Value::Integer(1)).unwrap_err();
    let cause = fault.to_string();
    assert!(!cause.is_empty());
    assert_eq!(rendered_from(Err(fault)), Err(cause));
}

#[test]
fn rendering_gives_the_text_and_no_cause() {
    let file = ServiceFile { service: vec![service("A", "a")] };
    assert_eq!(
        render_services(&file),
        Ok("[[service]]\nexec = \"a\"\nname = \"A\"\n".to_string())
    );
    let mut envs = Envs::new();
    envs.insert("K".to_string(), "v".to_string());
    assert_eq!(render_envs(&envs), Ok("K = \"v\"\n".to_string()));
    assert_eq!(render_envs(&Envs::new()), Ok(String::new()));
}
