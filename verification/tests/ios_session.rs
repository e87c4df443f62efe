use microphone::ios_session::{
    activate, finish_activation, session_category, Activation, Message, RuntimeClass,
    RuntimeSymbol, SessionCall, SessionReply, YES,
};
use microphone::protocol::{Opening, Request};

fn good_reply(call: SessionCall) -> SessionReply {
    match call {
        SessionCall::LoadRuntime | SessionCall::LoadAvfAudio | SessionCall::Resolve(_) => {
            SessionReply::Found(Ok(()))
        }
        SessionCall::GetClass(_) | SessionCall::Send(Message::SharedInstance) => {
            SessionReply::Object { nil: false }
        }
        SessionCall::Send(Message::StringWithUtf8) => SessionReply::Made,
        SessionCall::Send(_) => SessionReply::Accepted(1),
    }
}

fn bad_reply(call: SessionCall) -> SessionReply {
    match call {
        SessionCall::LoadRuntime | SessionCall::LoadAvfAudio | SessionCall::Resolve(_) => {
            SessionReply::Found(Err("not found".to_string()))
        }
        SessionCall::GetClass(_) | SessionCall::Send(Message::SharedInstance) => {
            SessionReply::Object { nil: true }
        }
        SessionCall::Send(_) => SessionReply::Accepted(0),
    }
}

fn run(fail_at: usize) -> (Vec<SessionCall>, Opening<Activation>) {
    let mut activation = activate();
    let mut calls = Vec::new();
    loop {
        match activation.request() {
            Request::Call(call) => {
                let reply = if calls.len() == fail_at { bad_reply(call) } else { good_reply(call) };
                calls.push(call);
                activation = activation.answer(reply);
            }
            Request::Release(_) => panic!("nothing is given back"),
            Request::Opened | Request::Failed => return (calls, activation),
        }
    }
}

#[test]
fn a_session_is_activated_for_recording() {
    let (calls, activation) = run(99);
    assert_eq!(
        calls,
        vec![
            SessionCall::LoadRuntime,
            SessionCall::LoadAvfAudio,
            SessionCall::Resolve(RuntimeSymbol::GetClass),
            SessionCall::Resolve(RuntimeSymbol::RegisterName),
            SessionCall::Resolve(RuntimeSymbol::MsgSend),
            SessionCall::GetClass(RuntimeClass::AudioSession),
            SessionCall::Send(Message::SharedInstance),
            SessionCall::Resolve(RuntimeSymbol::GetClass),
            SessionCall::Resolve(RuntimeSymbol::RegisterName),
            SessionCall::GetClass(RuntimeClass::NsString),
            SessionCall::Send(Message::StringWithUtf8),
            SessionCall::Send(Message::SetCategory),
            SessionCall::Send(Message::SetActive { active: 1 }),
        ]
    );
    assert_eq!(finish_activation(&activation), Ok(()));
    assert_eq!(session_category(), "AVAudioSessionCategoryPlayAndRecord");
}

#[test]
fn a_failed_activation_tells_why() {
    let messages = [
        "not found",
        "not found",
        "objc_getClass: not found",
        "sel_registerName: not found",
        "objc_msgSend: not found",
        "AVAudioSession class not found",
        "AVAudioSession sharedInstance returned nil",
        "objc_getClass: not found",
        "sel_registerName: not found",
        "NSString class not found",
        "NSString stringWithUTF8String failed",
        "AVAudioSession setCategory failed",
        "AVAudioSession setActive failed",
    ];
    for (at, message) in messages.iter().enumerate() {
        let (calls, activation) = run(at);
        assert_eq!(calls.len(), at + 1);
        assert_eq!(activation.failure(), Some(at));
        assert_eq!(finish_activation(&activation), Err(message.to_string()));
    }
}

#[test]
fn an_activation_takes_no_reply_to_another_call() {
    let activation = activate().answer(SessionReply::Made);
    assert_eq!(finish_activation(&activation), Err("unexpected reply".to_string()));
}

#[test]
fn classes_functions_and_messages_have_their_names() {
    assert_eq!(RuntimeSymbol::GetClass.name(), "objc_getClass");
    assert_eq!(RuntimeSymbol::RegisterName.name(), "sel_registerName");
    assert_eq!(RuntimeSymbol::MsgSend.name(), "objc_msgSend");
    assert_eq!(RuntimeClass::AudioSession.name(), "AVAudioSession");
    assert_eq!(RuntimeClass::NsString.name(), "NSString");
    assert_eq!(Message::SharedInstance.selector(), "sharedInstance");
    assert_eq!(Message::StringWithUtf8.selector(), "stringWithUTF8String:");
    assert_eq!(Message::SetCategory.selector(), "setCategory:error:");
    assert_eq!(Message::SetActive { active: YES }.selector(), "setActive:error:");
    assert_eq!(YES, 1);
}
