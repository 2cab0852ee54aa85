//! The two configuration documents as TOML: which documents are accepted, what
//! they mean, and what is written for a value.
//!
//! A services document is a table whose entry `service` is an array of tables,
//! each with a string `name` and a string `exec`; entries under other keys are
//! passed over. An environment document is a table of strings.

use vstd::prelude::*;
use crate::envs::{map_has_each, names, place, Envs};
use crate::model::{Service, ServiceFile, ServiceView};
use crate::values::{
    distinct_keys, entries_in, entry_in, entry_of, fault_message, fault_text, items_in, list_value,
    make_list, make_table, make_text, pairs_cover, pairs_map_covers, parse_document, render,
    render_fault_message, render_fault_text, rendered_text, table_value, text_in, text_value,
    toml_document, value_list, value_table, value_text,
};

verus! {

/// Why a text is not a document of the kind that was asked for.
#[derive(Debug, Clone, PartialEq, Eq)]
pub enum ParseFault {
    /// The text is not TOML; the message is the parser's.
    Syntax { message: String },
    /// The text is TOML, but not of the shape that the document must have.
    Shape,
}

/// A [`ParseFault`] with its message as a sequence of characters.
pub enum ParseFaultView {
    Syntax { message: Seq<char> },
    Shape,
}

impl View for ParseFault {
    type V = ParseFaultView;

    open spec fn view(&self) -> ParseFaultView {
        match self {
            ParseFault::Syntax { message } => ParseFaultView::Syntax { message: message@ },
            ParseFault::Shape => ParseFaultView::Shape,
        }
    }
}

/// The cause that is reported for a document of the wrong shape.
pub open spec fn shape_cause() -> Seq<char> {
    "the document does not have the expected shape"@
}

/// The cause that a fault is reported with.
pub open spec fn fault_cause(fault: ParseFaultView) -> Seq<char> {
    match fault {
        ParseFaultView::Syntax { message } => message,
        ParseFaultView::Shape => shape_cause(),
    }
}

impl ParseFault {
    /// The cause to report: the parser's message, or a line that says that
    /// the shape is wrong.
    pub fn cause(&self) -> (cause: String)
        ensures
            cause@ == fault_cause(self@),
    {
        match self {
            ParseFault::Syntax { message } => message.clone(),
            ParseFault::Shape => "the document does not have the expected shape".to_owned(),
        }
    }
}

/// The service that a value stands for: a table with the strings `name` and
/// `exec`. `None` for any other value.
pub open spec fn service_of(value: toml::Value) -> Option<ServiceView> {
    match entry_of(value_table(value), "name"@) {
        Some(name) => match entry_of(value_table(value), "exec"@) {
            Some(command) => match value_text(name) {
                Some(name_text) => match value_text(command) {
                    Some(command_text) => Some(
                        ServiceView { name: name_text, command: command_text },
                    ),
                    None => None,
                },
                None => None,
            },
            None => None,
        },
        None => None,
    }
}

/// Whether every item stands for a service.
pub open spec fn all_services(items: Seq<toml::Value>) -> bool {
    forall|i: int| 0 <= i < items.len() ==> service_of(#[trigger] items[i]) is Some
}

/// The services that a document stands for, in the document's order: those of
/// the array under `service`. `None` where the document has no such array or
/// one of its items is no service.
pub open spec fn services_of(document: toml::Value) -> Option<Seq<ServiceView>> {
    match entry_of(value_table(document), "service"@) {
        Some(list) => match value_list(list) {
            Some(items) => if all_services(items) {
                Some(Seq::new(items.len(), |i: int| service_of(items[i]).unwrap()))
            } else {
                None
            },
            None => None,
        },
        None => None,
    }
}

/// Whether every entry of a table is a string.
pub open spec fn all_texts(table: Map<Seq<char>, toml::Value>) -> bool {
    forall|key: Seq<char>| #[trigger] table.contains_key(key) ==> value_text(table[key]) is Some
}

/// The variables that a document stands for: its entries, which must all be
/// strings. `None` where one is not.
pub open spec fn envs_of(document: toml::Value) -> Option<Map<Seq<char>, Seq<char>>> {
    match value_table(document) {
        Some(table) => if all_texts(table) {
            Some(
                Map::new(
                    |key: Seq<char>| table.contains_key(key),
                    |key: Seq<char>| value_text(table[key]).unwrap(),
                ),
            )
        } else {
            None
        },
        None => None,
    }
}

/// The view of a service that may be missing.
pub open spec fn service_option_view(service: Option<Service>) -> Option<ServiceView> {
    match service {
        Some(found) => Some(found@),
        None => None,
    }
}

/// The view of a services document that may be missing.
pub open spec fn services_option_view(file: Option<ServiceFile>) -> Option<Seq<ServiceView>> {
    match file {
        Some(found) => Some(found@),
        None => None,
    }
}

/// The view of a set of variables that may be missing.
pub open spec fn envs_option_view(envs: Option<Envs>) -> Option<Map<Seq<char>, Seq<char>>> {
    match envs {
        Some(found) => Some(found@),
        None => None,
    }
}

/// Reads one service from a value.
pub fn decode_service(value: &toml::Value) -> (service: Option<Service>)
    ensures
        service_option_view(service) == service_of(*value),
{
    let name = match entry_in(value, "name") {
        Some(found) => found,
        None => {
            return None;
        },
    };
    let command = match entry_in(value, "exec") {
        Some(found) => found,
        None => {
            return None;
        },
    };
    let name_text = match text_in(&name) {
        Some(found) => found,
        None => {
            return None;
        },
    };
    let command_text = match text_in(&command) {
        Some(found) => found,
        None => {
            return None;
        },
    };
    Some(Service { name: name_text, command: command_text })
}

/// Reads the services from a document, in the document's order.
pub fn decode_services(document: &toml::Value) -> (file: Option<ServiceFile>)
    ensures
        services_option_view(file) == services_of(*document),
{
    let list = match entry_in(document, "service") {
        Some(found) => found,
        None => {
            return None;
        },
    };
    let items = match items_in(&list) {
        Some(found) => found,
        None => {
            return None;
        },
    };
    let mut service: Vec<Service> = Vec::new();
    let mut i: usize = 0;
    while i < items.len()
        invariant
            i <= items@.len(),
            service@.len() == i,
            entry_of(value_table(*document), "service"@) == Some(list),
            value_list(list) == Some(items@),
            forall|j: int| 0 <= j < i ==> service_of(#[trigger] items@[j]) == Some(service@[j]@),
        decreases items@.len() - i,
    {
        match decode_service(&items[i]) {
            Some(found) => {
                service.push(found);
            },
            None => {
                assert(service_of(items@[i as int]) is None);
                return None;
            },
        }
        i += 1;
    }
    let file = ServiceFile { service };
    proof {
        assert(all_services(items@));
        assert(file@ =~= Seq::new(items@.len(), |i: int| service_of(items@[i]).unwrap()));
    }
    Some(file)
}

/// Reads the variables from a document.
pub fn decode_envs(document: &toml::Value) -> (envs: Option<Envs>)
    ensures
        envs_option_view(envs) == envs_of(*document),
{
    let pairs = match entries_in(document) {
        Some(found) => found,
        None => {
            return None;
        },
    };
    let ghost table = value_table(*document).unwrap();
    let mut envs = Envs::new();
    let mut i: usize = 0;
    while i < pairs.len()
        invariant
            i <= pairs@.len(),
            value_table(*document) == Some(table),
            pairs_cover(pairs@, table),
            forall|j: int| 0 <= j < i ==> value_text((#[trigger] pairs@[j]).1) is Some,
            forall|key: Seq<char>|
                envs@.contains_key(key) <==> exists|j: int|
                    0 <= j < i && (#[trigger] pairs@[j]).0@ == key,
            forall|key: Seq<char>| #[trigger]
                envs@.contains_key(key) ==> table.contains_key(key) && Some(envs@[key])
                    == value_text(table[key]),
        decreases pairs@.len() - i,
    {
        let ghost before = envs@;
        let text = match text_in(&pairs[i].1) {
            Some(found) => found,
            None => {
                proof {
                    let key = pairs@[i as int].0@;
                    assert(table.contains_key(key) && table[key] == pairs@[i as int].1);
                    assert(!all_texts(table));
                }
                return None;
            },
        };
        envs.insert(pairs[i].0.clone(), text);
        proof {
            let name = pairs@[i as int].0@;
            assert(table.contains_key(name) && table[name] == pairs@[i as int].1);
            assert forall|key: Seq<char>| envs@.contains_key(key) <==> exists|j: int|
                0 <= j < i + 1 && (#[trigger] pairs@[j]).0@ == key by {
                if before.contains_key(key) {
                    let j = choose|j: int| 0 <= j < i && (#[trigger] pairs@[j]).0@ == key;
                    assert(0 <= j < i + 1 && pairs@[j].0@ == key);
                }
                if key == name {
                    assert(pairs@[i as int].0@ == key);
                }
                if exists|j: int| 0 <= j < i + 1 && (#[trigger] pairs@[j]).0@ == key {
                    let j = choose|j: int| 0 <= j < i + 1 && (#[trigger] pairs@[j]).0@ == key;
                    if j < i {
                        assert(before.contains_key(key));
                    }
                }
            }
        }
        i += 1;
    }
    proof {
        assert(all_texts(table)) by {
            assert forall|key: Seq<char>| #[trigger] table.contains_key(key) implies value_text(
                table[key],
            ) is Some by {
                let j = choose|j: int| 0 <= j < pairs@.len() && (#[trigger] pairs@[j]).0@ == key;
                assert(table[pairs@[j].0@] == pairs@[j].1);
            }
        }
        let wanted = Map::new(
            |key: Seq<char>| table.contains_key(key),
            |key: Seq<char>| value_text(table[key]).unwrap(),
        );
        assert forall|key: Seq<char>| table.contains_key(key) implies envs@.contains_key(key) by {
            let j = choose|j: int| 0 <= j < pairs@.len() && (#[trigger] pairs@[j]).0@ == key;
            assert(0 <= j < i && pairs@[j].0@ == key);
        }
        assert(envs@ =~= wanted);
    }
    Some(envs)
}

/// The view of a parsed services document or of the fault in its place.
pub open spec fn services_result_view(result: Result<ServiceFile, ParseFault>) -> Result<
    Seq<ServiceView>,
    ParseFaultView,
> {
    match result {
        Ok(file) => Ok(file@),
        Err(fault) => Err(fault@),
    }
}

/// The view of parsed variables or of the fault in their place.
pub open spec fn envs_result_view(result: Result<Envs, ParseFault>) -> Result<
    Map<Seq<char>, Seq<char>>,
    ParseFaultView,
> {
    match result {
        Ok(envs) => Ok(envs@),
        Err(fault) => Err(fault@),
    }
}

/// What a parsed text means as a services document: its services, a fault of
/// shape where it is TOML but no services document, or a fault of syntax with
/// the parser's message where it is not TOML.
pub open spec fn services_outcome(parsed: Result<toml::Value, toml::de::Error>) -> Result<
    Seq<ServiceView>,
    ParseFaultView,
> {
    match parsed {
        Ok(document) => match services_of(document) {
            Some(services) => Ok(services),
            None => Err(ParseFaultView::Shape),
        },
        Err(fault) => Err(ParseFaultView::Syntax { message: fault_text(fault) }),
    }
}

/// What a parsed text means as an environment document.
pub open spec fn envs_outcome(parsed: Result<toml::Value, toml::de::Error>) -> Result<
    Map<Seq<char>, Seq<char>>,
    ParseFaultView,
> {
    match parsed {
        Ok(document) => match envs_of(document) {
            Some(envs) => Ok(envs),
            None => Err(ParseFaultView::Shape),
        },
        Err(fault) => Err(ParseFaultView::Syntax { message: fault_text(fault) }),
    }
}

/// The services of a text that the parser has been through.
pub fn services_from(parsed: Result<toml::Value, toml::de::Error>) -> (result: Result<
    ServiceFile,
    ParseFault,
>)
    ensures
        services_result_view(result) == services_outcome(parsed),
{
    match parsed {
        Ok(document) => match decode_services(&document) {
            Some(file) => Ok(file),
            None => Err(ParseFault::Shape),
        },
        Err(fault) => Err(ParseFault::Syntax { message: fault_message(&fault) }),
    }
}

/// The variables of a text that the parser has been through.
pub fn envs_from(parsed: Result<toml::Value, toml::de::Error>) -> (result: Result<
    Envs,
    ParseFault,
>)
    ensures
        envs_result_view(result) == envs_outcome(parsed),
{
    match parsed {
        Ok(document) => match decode_envs(&document) {
            Some(envs) => Ok(envs),
            None => Err(ParseFault::Shape),
        },
        Err(fault) => Err(ParseFault::Syntax { message: fault_message(&fault) }),
    }
}

/// Reads a services document from its text.
pub fn parse_services(text: &str) -> (result: Result<ServiceFile, ParseFault>)
    ensures
        services_result_view(result) == services_outcome(toml_document(text@)),
{
    services_from(parse_document(text))
}

/// Reads an environment document from its text.
pub fn parse_envs(text: &str) -> (result: Result<Envs, ParseFault>)
    ensures
        envs_result_view(result) == envs_outcome(toml_document(text@)),
{
    envs_from(parse_document(text))
}

/// The value that is written for a service: a table with its two texts.
pub open spec fn service_document(service: ServiceView) -> toml::Value {
    table_value(
        Map::<Seq<char>, toml::Value>::empty().insert("name"@, text_value(service.name)).insert(
            "exec"@,
            text_value(service.command),
        ),
    )
}

/// The value that is written for each service, in the services' order.
pub open spec fn service_documents(services: Seq<ServiceView>) -> Seq<toml::Value> {
    Seq::new(services.len(), |i: int| service_document(services[i]))
}

/// The value that is written for a list of services: a table with the array
/// of their tables under `service`.
pub open spec fn services_document(services: Seq<ServiceView>) -> toml::Value {
    table_value(
        Map::<Seq<char>, toml::Value>::empty().insert(
            "service"@,
            list_value(service_documents(services)),
        ),
    )
}

/// The value that is written for a set of variables: a table with one string
/// for each.
pub open spec fn envs_document(envs: Map<Seq<char>, Seq<char>>) -> toml::Value {
    table_value(
        Map::new(|key: Seq<char>| envs.contains_key(key), |key: Seq<char>| text_value(envs[key])),
    )
}

/// Builds the value that is written for a service. Reading it gives the
/// service back.
pub fn service_value(service: &Service) -> (value: toml::Value)
    ensures
        value == service_document(service@),
        service_of(value) == Some(service@),
{
    let mut pairs: Vec<(String, toml::Value)> = Vec::new();
    pairs.push(("name".to_owned(), make_text(service.name.as_str())));
    pairs.push(("exec".to_owned(), make_text(service.command.as_str())));
    proof {
        reveal_strlit("name");
        reveal_strlit("exec");
        assert("name"@[0] != "exec"@[0]);
        assert(pairs@[0].0@ != pairs@[1].0@);
    }
    proof {
        pairs_map_covers(pairs@);
    }
    let value = make_table(pairs);
    proof {
        let table = value_table(value).unwrap();
        assert(table.contains_key(pairs@[0].0@) && table[pairs@[0].0@] == pairs@[0].1);
        assert(table.contains_key(pairs@[1].0@) && table[pairs@[1].0@] == pairs@[1].1);
        assert(table =~= Map::<Seq<char>, toml::Value>::empty().insert(
            "name"@,
            text_value(service@.name),
        ).insert("exec"@, text_value(service@.command)));
    }
    value
}

/// Builds the value that is written for a services document. Reading it gives
/// the services back, in their order.
pub fn services_value(file: &ServiceFile) -> (value: toml::Value)
    ensures
        value == services_document(file@),
        services_of(value) == Some(file@),
{
    let mut items: Vec<toml::Value> = Vec::new();
    let mut i: usize = 0;
    while i < file.service.len()
        invariant
            i <= file.service@.len(),
            items@.len() == i,
            forall|j: int|
                0 <= j < i ==> (#[trigger] items@[j]) == service_document(file@[j]) && service_of(
                    items@[j],
                ) == Some(file@[j]),
        decreases file.service@.len() - i,
    {
        let item = service_value(&file.service[i]);
        items.push(item);
        i += 1;
    }
    proof {
        assert(items@ =~= service_documents(file@));
        assert(all_services(items@));
        assert(file@ =~= Seq::new(items@.len(), |i: int| service_of(items@[i]).unwrap()));
    }
    let list = make_list(items);
    let mut pairs: Vec<(String, toml::Value)> = Vec::new();
    pairs.push(("service".to_owned(), list));
    proof {
        pairs_map_covers(pairs@);
    }
    let value = make_table(pairs);
    proof {
        let table = value_table(value).unwrap();
        assert(table.contains_key(pairs@[0].0@) && table[pairs@[0].0@] == pairs@[0].1);
        assert(table =~= Map::<Seq<char>, toml::Value>::empty().insert("service"@, list));
    }
    value
}

/// Builds the value that is written for a set of variables. Reading it gives
/// the variables back.
pub fn envs_value(envs: &Envs) -> (value: toml::Value)
    ensures
        value == envs_document(envs@),
        envs_of(value) == Some(envs@),
{
    let vars = envs.entries();
    let mut pairs: Vec<(String, toml::Value)> = Vec::new();
    let mut i: usize = 0;
    while i < vars.len()
        invariant
            i <= vars@.len(),
            pairs@.len() == i,
            forall|j: int|
                0 <= j < i ==> (#[trigger] pairs@[j]).0@ == vars@[j].name@ && pairs@[j].1
                    == text_value(vars@[j].value@) && value_text(pairs@[j].1) == Some(
                    vars@[j].value@,
                ),
        decreases vars@.len() - i,
    {
        let var = &vars[i];
        pairs.push((var.name.clone(), make_text(var.value.as_str())));
        i += 1;
    }
    proof {
        assert(distinct_keys(pairs@)) by {
            assert forall|a: int, b: int| 0 <= a < b < pairs@.len() implies pairs@[a].0@
                != pairs@[b].0@ by {
                assert(vars@[a].name@ != vars@[b].name@);
            }
        }
        pairs_map_covers(pairs@);
    }
    let value = make_table(pairs);
    proof {
        let table = value_table(value).unwrap();
        let wanted = Map::new(
            |key: Seq<char>| envs@.contains_key(key),
            |key: Seq<char>| text_value(envs@[key]),
        );
        assert forall|key: Seq<char>| table.contains_key(key) implies envs@.contains_key(key)
            && table[key] == text_value(envs@[key]) && value_text(table[key]) == Some(
            envs@[key],
        ) by {
            let j = choose|j: int| 0 <= j < pairs@.len() && (#[trigger] pairs@[j]).0@ == key;
            assert(table[pairs@[j].0@] == pairs@[j].1);
            map_has_each(vars@, j);
        }
        assert forall|key: Seq<char>| envs@.contains_key(key) implies table.contains_key(key) by {
            assert(names(vars@, key));
            let at = place(vars@, key);
            assert(pairs@[at].0@ == key);
            assert(table.contains_key(pairs@[at].0@));
        }
        assert(table =~= wanted);
        assert(all_texts(table));
        assert(envs@ =~= Map::new(
            |key: Seq<char>| table.contains_key(key),
            |key: Seq<char>| value_text(table[key]).unwrap(),
        ));
    }
    value
}

/// The view of a rendered text or of the cause in its place.
pub open spec fn text_result_view(result: Result<String, String>) -> Result<Seq<char>, Seq<char>> {
    match result {
        Ok(text) => Ok(text@),
        Err(cause) => Err(cause@),
    }
}

/// What the writer's answer comes to: the text, or the line that the
/// writer's error shows for itself.
pub open spec fn rendered_outcome(rendered: Result<Seq<char>, toml::ser::Error>) -> Result<
    Seq<char>,
    Seq<char>,
> {
    match rendered {
        Ok(text) => Ok(text),
        Err(fault) => Err(render_fault_text(fault)),
    }
}

/// The text of a document that the writer has been through, or the writer's
/// cause for refusing it.
pub fn rendered_from(rendered: Result<String, toml::ser::Error>) -> (result: Result<String, String>)
    ensures
        text_result_view(result) == rendered_outcome(
            match rendered {
                Ok(text) => Ok(text@),
                Err(fault) => Err(fault),
            },
        ),
{
    match rendered {
        Ok(text) => Ok(text),
        Err(fault) => Err(render_fault_message(&fault)),
    }
}

/// The text of a services document, or the writer's cause for refusing it.
pub fn render_services(file: &ServiceFile) -> (result: Result<String, String>)
    ensures
        text_result_view(result) == rendered_outcome(rendered_text(services_document(file@))),
{
    let value = services_value(file);
    rendered_from(render(&value))
}

/// The text of an environment document, or the writer's cause for refusing
/// it.
pub fn render_envs(envs: &Envs) -> (result: Result<String, String>)
    ensures
        text_result_view(result) == rendered_outcome(rendered_text(envs_document(envs@))),
{
    let value = envs_value(envs);
    rendered_from(render(&value))
}

} // verus!
