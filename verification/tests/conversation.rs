use chat_coordinator::coordinator::{Coordinator, Step};
use chat_coordinator::error::ChatError;
use chat_coordinator::history::ChatHistory;
use chat_coordinator::message::{ChatMessage, Role, ToolCall};
use chat_coordinator::request::{
    ChatMessageRequest, ChatMessageResponse, FormatType, ToolInfo,
};
use std::collections::VecDeque;

type Tools<'a> = dyn FnMut(&str, &str) -> Result<String, String> + 'a;

/// A scripted service: hands out the prepared replies in order and keeps
/// every request it was sent.
struct Service {
    replies: VecDeque<Result<ChatMessageResponse, String>>,
    requests: Vec<ChatMessageRequest>,
}

impl Service {
    fn new(replies: Vec<Result<ChatMessageResponse, String>>) -> Self {
        Service { replies: replies.into(), requests: Vec::new() }
    }
}

fn info(name: &str) -> ToolInfo {
    ToolInfo::new(name.to_string(), format!("the {name} tool"), "{}".to_string())
}

fn call(name: &str, arguments: &str) -> ToolCall {
    ToolCall::new(name.to_string(), arguments.to_string())
}

fn asking(calls: Vec<ToolCall>) -> ChatMessageResponse {
    ChatMessageResponse {
        model: "llama".to_string(),
        message: ChatMessage { role: Role::Assistant, content: String::new(), tool_calls: calls },
        done: true,
    }
}

fn saying(text: &str) -> ChatMessageResponse {
    ChatMessageResponse {
        model: "llama".to_string(),
        message: ChatMessage::assistant(text.to_string()),
        done: true,
    }
}

/// Runs a conversation to its end, recording the tool calls that were run.
fn converse(
    coordinator: &mut Coordinator<Vec<ChatMessage>>,
    messages: Vec<ChatMessage>,
    service: &mut Service,
    tools: &mut Tools,
    ran: &mut Vec<ToolCall>,
) -> Result<ChatMessageResponse, ChatError> {
    let mut step = coordinator.chat(messages);
    loop {
        step = match step {
            Step::Request(request) => {
                service.requests.push(request);
                match service.replies.pop_front().expect("the script ran out of replies") {
                    Ok(reply) => coordinator.on_response(reply),
                    Err(cause) => coordinator.on_transport_failure(cause),
                }
            }
            Step::Invoke(dispatch) => {
                let asked = dispatch.call().clone();
                assert!(coordinator.is_registered(&asked.function.name));
                let result = tools(&asked.function.name, &asked.function.arguments);
                ran.push(asked);
                coordinator.on_tool_result(dispatch, result)
            }
            Step::Done(reply) => return Ok(reply),
            Step::Failed(error) => return Err(error),
        };
    }
}

#[test]
fn lookup_scenario_end_to_end() {
    let mut coordinator =
        Coordinator::new("llama".to_string(), Vec::<ChatMessage>::new()).add_tool(info("lookup"));
    let first = asking(vec![call("lookup", "{}")]);
    let mut service = Service::new(vec![Ok(first.clone()), Ok(saying("x is 42"))]);
    let mut ran = Vec::new();
    let mut tools = |_: &str, _: &str| Ok("42".to_string());

    let reply = converse(
        &mut coordinator,
        vec![ChatMessage::user("what is x?".to_string())],
        &mut service,
        &mut tools,
        &mut ran,
    )
    .unwrap();

    assert_eq!(reply.message.content, "x is 42");
    assert_eq!(reply, saying("x is 42"));
    assert_eq!(
        coordinator.history(),
        &vec![
            ChatMessage::user("what is x?".to_string()),
            first.message.clone(),
            ChatMessage::tool("42".to_string()),
            ChatMessage::assistant("x is 42".to_string()),
        ]
    );
    assert_eq!(ran, vec![call("lookup", "{}")]);
    assert_eq!(service.requests.len(), 2);
    assert_eq!(
        service.requests[0].messages,
        vec![ChatMessage::user("what is x?".to_string())]
    );
    assert_eq!(
        service.requests[1].messages,
        vec![
            ChatMessage::user("what is x?".to_string()),
            first.message,
            ChatMessage::tool("42".to_string()),
        ]
    );
}

#[test]
fn format_waits_for_the_tool_round() {
    let mut coordinator = Coordinator::new("llama".to_string(), Vec::<ChatMessage>::new())
        .add_tool(info("lookup"))
        .format(FormatType::Json);
    let mut service =
        Service::new(vec![Ok(asking(vec![call("lookup", "{}")])), Ok(saying("{\"x\":42}"))]);
    let mut ran = Vec::new();
    let mut tools = |_: &str, _: &str| Ok("42".to_string());
    converse(
        &mut coordinator,
        vec![ChatMessage::user("what is x?".to_string())],
        &mut service,
        &mut tools,
        &mut ran,
    )
    .unwrap();
    assert_eq!(service.requests[0].format, None);
    assert_eq!(service.requests[1].format, Some(FormatType::Json));
}

#[test]
fn plain_reply_ends_the_conversation_unchanged() {
    let mut coordinator =
        Coordinator::new("llama".to_string(), Vec::<ChatMessage>::new()).add_tool(info("lookup"));
    let reply = ChatMessageResponse {
        model: "other".to_string(),
        message: ChatMessage::new(Role::Assistant, "hello".to_string()),
        done: false,
    };
    let _ = coordinator.chat(vec![ChatMessage::user("hi".to_string())]);
    match coordinator.on_response(reply.clone()) {
        Step::Done(returned) => assert_eq!(returned, reply),
        other => panic!("expected the final reply, got {other:?}"),
    }
    assert_eq!(
        coordinator.history(),
        &vec![ChatMessage::user("hi".to_string()), reply.message]
    );
}

#[test]
fn tools_run_in_the_order_of_the_reply() {
    let mut coordinator = Coordinator::new("llama".to_string(), Vec::<ChatMessage>::new())
        .add_tool(info("a"))
        .add_tool(info("b"))
        .add_tool(info("c"));
    let calls = vec![call("c", "1"), call("a", "2"), call("b", "3"), call("a", "4")];
    let mut service = Service::new(vec![Ok(asking(calls.clone())), Ok(saying("done"))]);
    let mut ran = Vec::new();
    let mut tools = |name: &str, arguments: &str| Ok(format!("{name}:{arguments}"));
    converse(&mut coordinator, vec![], &mut service, &mut tools, &mut ran).unwrap();
    assert_eq!(ran, calls);
    let history = coordinator.history();
    assert_eq!(history.len(), 6);
    assert_eq!(history[1], ChatMessage::tool("c:1".to_string()));
    assert_eq!(history[2], ChatMessage::tool("a:2".to_string()));
    assert_eq!(history[3], ChatMessage::tool("b:3".to_string()));
    assert_eq!(history[4], ChatMessage::tool("a:4".to_string()));
}

#[test]
fn second_tool_sees_what_the_first_changed() {
    let mut coordinator = Coordinator::new("llama".to_string(), Vec::<ChatMessage>::new())
        .add_tool(info("store"))
        .add_tool(info("load"));
    let mut service = Service::new(vec![
        Ok(asking(vec![call("store", "seven"), call("load", "")])),
        Ok(saying("done")),
    ]);
    let mut ran = Vec::new();
    let mut cell = String::from("empty");
    let mut tools = |name: &str, arguments: &str| {
        if name == "store" {
            cell = arguments.to_string();
            Ok("stored".to_string())
        } else {
            Ok(cell.clone())
        }
    };
    converse(&mut coordinator, vec![], &mut service, &mut tools, &mut ran).unwrap();
    assert_eq!(
        coordinator.history()[1..3],
        [ChatMessage::tool("stored".to_string()), ChatMessage::tool("seven".to_string())]
    );
}

#[test]
fn dispatch_reports_its_position() {
    let mut coordinator = Coordinator::new("llama".to_string(), Vec::<ChatMessage>::new())
        .add_tool(info("a"))
        .add_tool(info("b"));
    let first = match coordinator.on_response(asking(vec![call("a", "1"), call("b", "2")])) {
        Step::Invoke(dispatch) => dispatch,
        other => panic!("expected a tool call, got {other:?}"),
    };
    assert_eq!(first.position(), 0);
    assert_eq!(first.len(), 2);
    assert_eq!(first.call(), &call("a", "1"));
    let second = match coordinator.on_tool_result(first, Ok("one".to_string())) {
        Step::Invoke(dispatch) => dispatch,
        other => panic!("expected a tool call, got {other:?}"),
    };
    assert_eq!(second.position(), 1);
    assert_eq!(second.len(), 2);
    assert_eq!(second.call(), &call("b", "2"));
    match coordinator.on_tool_result(second, Ok("two".to_string())) {
        Step::Request(request) => assert_eq!(request.messages.len(), 3),
        other => panic!("expected a request, got {other:?}"),
    }
}

#[test]
fn dispatch_names_the_tool_registered_last() {
    let mut coordinator = Coordinator::new("llama".to_string(), Vec::<ChatMessage>::new())
        .add_tool(info("a"))
        .add_tool(info("b"))
        .add_tool(info("a"));
    assert_eq!(coordinator.find_tool(&"a".to_string()), Some(2));
    assert_eq!(coordinator.find_tool(&"b".to_string()), Some(1));
    assert_eq!(coordinator.find_tool(&"c".to_string()), None);
    let first = match coordinator.on_response(asking(vec![call("b", ""), call("a", "")])) {
        Step::Invoke(dispatch) => dispatch,
        other => panic!("expected a tool call, got {other:?}"),
    };
    assert_eq!(first.tool(), 1);
    let second = match coordinator.on_tool_result(first, Ok(String::new())) {
        Step::Invoke(dispatch) => dispatch,
        other => panic!("expected a tool call, got {other:?}"),
    };
    assert_eq!(second.tool(), 2);
}

#[test]
fn find_tool_on_empty_registry() {
    let coordinator = Coordinator::new("llama".to_string(), Vec::<ChatMessage>::new());
    assert_eq!(coordinator.find_tool(&"lookup".to_string()), None);
    assert!(!coordinator.is_registered(&"lookup".to_string()));
}

#[test]
fn unknown_first_tool_fails_the_round() {
    let before = vec![ChatMessage::system("be brief".to_string())];
    let mut coordinator =
        Coordinator::new("llama".to_string(), before.clone()).add_tool(info("lookup"));
    let reply = asking(vec![call("missing", "{}"), call("lookup", "{}")]);
    let mut service = Service::new(vec![Ok(reply.clone())]);
    let mut ran = Vec::new();
    let mut tools = |_: &str, _: &str| Ok("42".to_string());
    let error = converse(&mut coordinator, vec![], &mut service, &mut tools, &mut ran).unwrap_err();
    assert_eq!(error, ChatError::UnknownToolName);
    assert!(ran.is_empty());
    assert_eq!(coordinator.history(), &vec![before[0].clone(), reply.message]);
    assert_eq!(service.requests.len(), 1);
}

#[test]
fn unknown_tool_with_empty_registry() {
    let mut coordinator = Coordinator::new("llama".to_string(), Vec::<ChatMessage>::new());
    let reply = asking(vec![call("lookup", "{}")]);
    match coordinator.on_response(reply.clone()) {
        Step::Failed(error) => assert_eq!(error, ChatError::UnknownToolName),
        other => panic!("expected a failure, got {other:?}"),
    }
    assert_eq!(coordinator.history(), &vec![reply.message]);
}

#[test]
fn unknown_later_tool_keeps_earlier_results() {
    let mut coordinator =
        Coordinator::new("llama".to_string(), Vec::<ChatMessage>::new()).add_tool(info("lookup"));
    let reply = asking(vec![call("lookup", "{}"), call("missing", "{}"), call("lookup", "{}")]);
    let mut service = Service::new(vec![Ok(reply.clone())]);
    let mut ran = Vec::new();
    let mut tools = |_: &str, _: &str| Ok("42".to_string());
    let error = converse(&mut coordinator, vec![], &mut service, &mut tools, &mut ran).unwrap_err();
    assert_eq!(error, ChatError::UnknownToolName);
    assert_eq!(ran, vec![call("lookup", "{}")]);
    assert_eq!(
        coordinator.history(),
        &vec![reply.message, ChatMessage::tool("42".to_string())]
    );
}

#[test]
fn failing_tool_fails_the_round_and_records_nothing() {
    let mut coordinator = Coordinator::new("llama".to_string(), Vec::<ChatMessage>::new())
        .add_tool(info("lookup"))
        .add_tool(info("broken"));
    let reply = asking(vec![call("lookup", "{}"), call("broken", "{}"), call("lookup", "{}")]);
    let mut service = Service::new(vec![Ok(reply.clone())]);
    let mut ran = Vec::new();
    let mut tools = |name: &str, _: &str| {
        if name == "broken" {
            Err("out of order".to_string())
        } else {
            Ok("42".to_string())
        }
    };
    let error = converse(&mut coordinator, vec![], &mut service, &mut tools, &mut ran).unwrap_err();
    assert_eq!(error, ChatError::ToolInvocationFailure("out of order".to_string()));
    assert_eq!(ran, vec![call("lookup", "{}"), call("broken", "{}")]);
    assert_eq!(
        coordinator.history(),
        &vec![reply.message, ChatMessage::tool("42".to_string())]
    );
    assert_eq!(service.requests.len(), 1);
}

#[test]
fn transport_failure_keeps_the_new_messages() {
    let mut coordinator = Coordinator::new("llama".to_string(), Vec::<ChatMessage>::new());
    let mut service = Service::new(vec![Err("connection refused".to_string())]);
    let mut ran = Vec::new();
    let mut tools = |_: &str, _: &str| Ok(String::new());
    let error = converse(
        &mut coordinator,
        vec![ChatMessage::user("hi".to_string())],
        &mut service,
        &mut tools,
        &mut ran,
    )
    .unwrap_err();
    assert_eq!(error, ChatError::TransportFailure("connection refused".to_string()));
    assert_eq!(error.clone(), error);
    assert_eq!(coordinator.history(), &vec![ChatMessage::user("hi".to_string())]);
}

#[test]
fn later_conversation_sees_earlier_turns() {
    let mut coordinator = Coordinator::new("llama".to_string(), Vec::<ChatMessage>::new());
    let mut service = Service::new(vec![Ok(saying("one")), Ok(saying("two"))]);
    let mut ran = Vec::new();
    let mut tools = |_: &str, _: &str| Ok(String::new());
    converse(
        &mut coordinator,
        vec![ChatMessage::user("first".to_string())],
        &mut service,
        &mut tools,
        &mut ran,
    )
    .unwrap();
    converse(
        &mut coordinator,
        vec![ChatMessage::system("careful".to_string()), ChatMessage::user("second".to_string())],
        &mut service,
        &mut tools,
        &mut ran,
    )
    .unwrap();
    let expected = vec![
        ChatMessage::user("first".to_string()),
        ChatMessage::assistant("one".to_string()),
        ChatMessage::system("careful".to_string()),
        ChatMessage::user("second".to_string()),
    ];
    assert_eq!(service.requests[1].messages, expected);
    assert_eq!(coordinator.history().len(), 5);
    assert_eq!(coordinator.history()[4], ChatMessage::assistant("two".to_string()));
}

#[test]
fn several_tool_rounds_in_a_row() {
    let mut coordinator =
        Coordinator::new("llama".to_string(), Vec::<ChatMessage>::new()).add_tool(info("lookup"));
    let mut service = Service::new(vec![
        Ok(asking(vec![call("lookup", "x")])),
        Ok(asking(vec![call("lookup", "y")])),
        Ok(saying("x and y")),
    ]);
    let mut ran = Vec::new();
    let mut tools = |_: &str, arguments: &str| Ok(arguments.to_uppercase());
    let reply = converse(&mut coordinator, vec![], &mut service, &mut tools, &mut ran).unwrap();
    assert_eq!(reply.message.content, "x and y");
    assert_eq!(ran, vec![call("lookup", "x"), call("lookup", "y")]);
    let roles: Vec<Role> = coordinator.history().iter().map(|m| m.role).collect();
    assert_eq!(
        roles,
        vec![Role::Assistant, Role::Tool, Role::Assistant, Role::Tool, Role::Assistant]
    );
    assert_eq!(service.requests.len(), 3);
}

#[test]
fn vec_history_appends_in_order() {
    let mut history: Vec<ChatMessage> = Vec::new();
    ChatHistory::push(&mut history, ChatMessage::user("a".to_string()));
    ChatHistory::push(&mut history, ChatMessage::assistant("b".to_string()));
    assert_eq!(
        ChatHistory::messages(&history),
        vec![ChatMessage::user("a".to_string()), ChatMessage::assistant("b".to_string())]
    );
}
