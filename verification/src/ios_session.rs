//! The AVAudioSession that iOS gates audio input behind.
//!
//! Without an active session of a record-capable category an input queue does
//! not start. AVAudioSession is Objective-C; it is driven through the runtime
//! rather than linked.

use vstd::prelude::*;

use crate::protocol::{Opening, Protocol};

verus! {

broadcast use vstd::string::group_string_axioms;

/// The session category that allows recording.
pub fn session_category() -> (category: &'static str)
    ensures
        category@ == "AVAudioSessionCategoryPlayAndRecord"@,
{
    "AVAudioSessionCategoryPlayAndRecord"
}

/// The Objective-C `YES`.
pub const YES: u8 = 1;

/// A function of the Objective-C runtime.
#[derive(Clone, Copy, Debug, PartialEq, Eq)]
pub enum RuntimeSymbol {
    /// `objc_getClass`.
    GetClass,
    /// `sel_registerName`.
    RegisterName,
    /// `objc_msgSend`.
    MsgSend,
}

impl RuntimeSymbol {
    /// The name that the function is looked up by.
    pub open spec fn spec_name(self) -> Seq<char> {
        match self {
            RuntimeSymbol::GetClass => "objc_getClass"@,
            RuntimeSymbol::RegisterName => "sel_registerName"@,
            RuntimeSymbol::MsgSend => "objc_msgSend"@,
        }
    }

    /// The name that the function is looked up by.
    pub fn name(self) -> (name: &'static str)
        ensures
            name@ == self.spec_name(),
    {
        match self {
            RuntimeSymbol::GetClass => "objc_getClass",
            RuntimeSymbol::RegisterName => "sel_registerName",
            RuntimeSymbol::MsgSend => "objc_msgSend",
        }
    }
}

/// A class that activation uses.
#[derive(Clone, Copy, Debug, PartialEq, Eq)]
pub enum RuntimeClass {
    /// `AVAudioSession`.
    AudioSession,
    /// `NSString`.
    NsString,
}

impl RuntimeClass {
    /// The name that the class is looked up by.
    pub open spec fn spec_name(self) -> Seq<char> {
        match self {
            RuntimeClass::AudioSession => "AVAudioSession"@,
            RuntimeClass::NsString => "NSString"@,
        }
    }

    /// The name that the class is looked up by.
    pub fn name(self) -> (name: &'static str)
        ensures
            name@ == self.spec_name(),
    {
        match self {
            RuntimeClass::AudioSession => "AVAudioSession",
            RuntimeClass::NsString => "NSString",
        }
    }
}

/// A message that activation sends.
#[derive(Clone, Copy, Debug, PartialEq, Eq)]
pub enum Message {
    /// To the session class: the shared session.
    SharedInstance,
    /// To the string class: a string object of the category.
    StringWithUtf8,
    /// To the session: use the category. The error is not asked for.
    SetCategory,
    /// To the session: become active. The error is not asked for.
    SetActive { active: u8 },
}

impl Message {
    /// The selector that the message is sent by.
    pub open spec fn spec_selector(self) -> Seq<char> {
        match self {
            Message::SharedInstance => "sharedInstance"@,
            Message::StringWithUtf8 => "stringWithUTF8String:"@,
            Message::SetCategory => "setCategory:error:"@,
            Message::SetActive { .. } => "setActive:error:"@,
        }
    }

    /// The selector that the message is sent by.
    pub fn selector(self) -> (selector: &'static str)
        ensures
            selector@ == self.spec_selector(),
    {
        match self {
            Message::SharedInstance => "sharedInstance",
            Message::StringWithUtf8 => "stringWithUTF8String:",
            Message::SetCategory => "setCategory:error:",
            Message::SetActive { .. } => "setActive:error:",
        }
    }
}

/// A call that activates the session.
#[derive(Clone, Copy, Debug, PartialEq, Eq)]
pub enum SessionCall {
    /// Load the Objective-C runtime.
    LoadRuntime,
    /// Load AVFAudio, which registers its classes.
    LoadAvfAudio,
    /// Look a function of the runtime up.
    Resolve(RuntimeSymbol),
    /// Look a class up.
    GetClass(RuntimeClass),
    /// Send a message.
    Send(Message),
}

/// What such a call answers.
pub enum SessionReply {
    /// A library or function was found, or why not.
    Found(Result<(), String>),
    /// Whether a class or the session is nil.
    Object { nil: bool },
    /// The string object was made.
    Made,
    /// What setting the category or activating returned: 0 where it was refused.
    Accepted(u8),
}

/// The activation of a record-capable session.
#[derive(Clone, Copy, Debug, PartialEq, Eq)]
pub struct Activation;

impl Activation {
    /// Why activation ended with `reply` to the call at `index`.
    pub open spec fn message(index: int, reply: SessionReply) -> Seq<char> {
        let error = match reply {
            SessionReply::Found(Err(error)) => error@,
            _ => "unexpected reply"@,
        };
        if index == 0 || index == 1 {
            error
        } else if index == 2 || index == 7 {
            "objc_getClass: "@ + error
        } else if index == 3 || index == 8 {
            "sel_registerName: "@ + error
        } else if index == 4 {
            "objc_msgSend: "@ + error
        } else if index == 5 {
            "AVAudioSession class not found"@
        } else if index == 6 {
            "AVAudioSession sharedInstance returned nil"@
        } else if index == 9 {
            "NSString class not found"@
        } else if index == 10 {
            "NSString stringWithUTF8String failed"@
        } else if index == 11 {
            "AVAudioSession setCategory failed"@
        } else {
            "AVAudioSession setActive failed"@
        }
    }

    /// Why activation ended with `reply` to the call at `index`.
    fn error_message(index: usize, reply: &SessionReply) -> (message: String)
        ensures
            message@ == Self::message(index as int, *reply),
    {
        let error = match reply {
            SessionReply::Found(Err(error)) => error.as_str(),
            _ => "unexpected reply",
        };
        match index {
            0 | 1 => String::from_str(error),
            2 | 7 => String::from_str("objc_getClass: ").concat(error),
            3 | 8 => String::from_str("sel_registerName: ").concat(error),
            4 => String::from_str("objc_msgSend: ").concat(error),
            5 => String::from_str("AVAudioSession class not found"),
            6 => String::from_str("AVAudioSession sharedInstance returned nil"),
            9 => String::from_str("NSString class not found"),
            10 => String::from_str("NSString stringWithUTF8String failed"),
            11 => String::from_str("AVAudioSession setCategory failed"),
            _ => String::from_str("AVAudioSession setActive failed"),
        }
    }
}

impl Protocol for Activation {
    type Call = SessionCall;

    type Reply = SessionReply;

    /// The runtime and AVFAudio are loaded, the runtime's functions are looked
    /// up, the shared session is got hold of, its category is made (for which
    /// two functions are looked up once more) and set, and it is made active.
    open spec fn calls(&self) -> Seq<SessionCall> {
        seq![
            SessionCall::LoadRuntime,
            SessionCall::LoadAvfAudio,
            SessionCall::Resolve(RuntimeSymbol::GetClass),
            SessionCall::Resolve(RuntimeSymbol::RegisterName),
            SessionCall::Resolve(RuntimeSymbol::MsgSend),
            SessionCall::GetClass(RuntimeClass::AudioSession),
            SessionCall::Send(Message::SharedInstance),
            SessionCall::Resolve(RuntimeSymbol::GetClass),
            SessionCall::Resolve(RuntimeSymbol::RegisterName),
            SessionCall::GetClass(RuntimeClass::NsString),
            SessionCall::Send(Message::StringWithUtf8),
            SessionCall::Send(Message::SetCategory),
            SessionCall::Send(Message::SetActive { active: YES }),
        ]
    }

    /// A call fails where a library, a function, a class or the session is not
    /// there, and where the session refuses the category or to become active. A
    /// reply that is none to the call fails too.
    open spec fn fails(&self, index: int, reply: SessionReply) -> bool {
        if index == 5 || index == 6 || index == 9 {
            !(reply is Object && !reply->nil)
        } else if index == 10 {
            !(reply is Made)
        } else if index == 11 || index == 12 {
            !(reply is Accepted && reply->Accepted_0 != 0)
        } else {
            !(reply is Found && reply->Found_0 is Ok)
        }
    }

    open spec fn releases(&self, failed: int) -> Seq<SessionCall> {
        Seq::empty()
    }

    open spec fn in_range(&self, index: int) -> bool {
        true
    }

    fn call(&self, index: usize) -> (call: Option<SessionCall>) {
        match index {
            0 => Some(SessionCall::LoadRuntime),
            1 => Some(SessionCall::LoadAvfAudio),
            2 => Some(SessionCall::Resolve(RuntimeSymbol::GetClass)),
            3 => Some(SessionCall::Resolve(RuntimeSymbol::RegisterName)),
            4 => Some(SessionCall::Resolve(RuntimeSymbol::MsgSend)),
            5 => Some(SessionCall::GetClass(RuntimeClass::AudioSession)),
            6 => Some(SessionCall::Send(Message::SharedInstance)),
            7 => Some(SessionCall::Resolve(RuntimeSymbol::GetClass)),
            8 => Some(SessionCall::Resolve(RuntimeSymbol::RegisterName)),
            9 => Some(SessionCall::GetClass(RuntimeClass::NsString)),
            10 => Some(SessionCall::Send(Message::StringWithUtf8)),
            11 => Some(SessionCall::Send(Message::SetCategory)),
            12 => Some(SessionCall::Send(Message::SetActive { active: YES })),
            _ => None,
        }
    }

    fn failed(&self, index: usize, reply: &SessionReply) -> (failed: bool) {
        match index {
            5 | 6 | 9 => match reply {
                SessionReply::Object { nil } => *nil,
                _ => true,
            },
            10 => match reply {
                SessionReply::Made => false,
                _ => true,
            },
            11 | 12 => match reply {
                SessionReply::Accepted(yes) => *yes == 0,
                _ => true,
            },
            _ => match reply {
                SessionReply::Found(result) => result.is_err(),
                _ => true,
            },
        }
    }

    fn release(&self, failed: usize, index: usize) -> (call: Option<SessionCall>) {
        None
    }
}

/// Begins to activate a record-capable session.
pub fn activate() -> (activation: Opening<Activation>)
    ensures
        activation.spec_protocol() == Activation,
        activation.progress() == crate::protocol::Progress::<SessionReply>::start(),
{
    Opening::new(Activation)
}

/// How the activation ended, and why where it failed. It succeeded only where
/// the session took the record-capable category and became active.
pub fn finish_activation(activation: &Opening<Activation>) -> (outcome: Result<(), String>)
    requires
        activation.progress().ended(activation.spec_protocol()),
    ensures
        match outcome {
            Ok(_) => {
                let replies = activation.progress().replies;
                &&& !activation.progress().failed
                &&& replies.len() == 13
                &&& replies[11] is Accepted && replies[11]->Accepted_0 != 0
                &&& replies[12] is Accepted && replies[12]->Accepted_0 != 0
            },
            Err(message) => {
                &&& activation.progress().failed
                &&& message@ == Activation::message(
                    activation.progress().replies.len() - 1,
                    activation.progress().last_reply(),
                )
            },
        },
{
    match activation.failure() {
        Some(index) => Err(Activation::error_message(index, &activation.replies()[index])),
        None => {
            assert(!Activation.fails(11, activation.progress().replies[11]));
            assert(!Activation.fails(12, activation.progress().replies[12]));
            Ok(())
        },
    }
}

// ---------------------------------------------------------------------------
// Laws
// ---------------------------------------------------------------------------

/// The session is made active last, and only with the record-capable category
/// set: activating comes right behind setting the category, and where that is
/// refused it does not come at all.
pub proof fn law_active_comes_last(i: int, answers: spec_fn(int) -> SessionReply)
    requires
        0 <= i < Activation.calls().len(),
    ensures
        Activation.calls()[i] == SessionCall::Send(Message::SetActive { active: YES }) <==> i
            == Activation.calls().len() - 1,
        Activation.calls()[i] == SessionCall::Send(Message::SetCategory) <==> i
            == Activation.calls().len() - 2,
        answers(11) is Accepted && answers(11)->Accepted_0 == 0 ==> !crate::protocol::drive(
            Activation,
            crate::protocol::Progress::start(),
            answers,
        ).0.contains(SessionCall::Send(Message::SetActive { active: YES })),
{
    if answers(11) is Accepted && answers(11)->Accepted_0 == 0 {
        crate::protocol::law_setup(Activation, answers);
        assert(Activation.fails(11, answers(11)));
    }
}

/// The calls by what they are, and the replies that end activation: a library or
/// function that is not found, a class or session that is nil, and a category or an
/// activation that is refused. Any answer but 0 to the last two is an acceptance.
pub proof fn law_replies_decide(
    index: int,
    found: Result<(), String>,
    nil: bool,
    yes: u8,
)
    requires
        0 <= index < Activation.calls().len(),
    ensures
        ({
            let call = Activation.calls()[index];
            let object = call is GetClass || call == SessionCall::Send(Message::SharedInstance);
            let asked = call == SessionCall::Send(Message::SetCategory) || call == SessionCall::Send(
                Message::SetActive { active: 1 },
            );
            &&& call is LoadRuntime || call is LoadAvfAudio || call is Resolve ==> (
            Activation.fails(index, SessionReply::Found(found)) <==> found is Err)
            &&& object ==> (Activation.fails(index, SessionReply::Object { nil }) <==> nil)
            &&& call == SessionCall::Send(Message::StringWithUtf8) ==> !Activation.fails(
                index,
                SessionReply::Made,
            )
            &&& asked ==> (Activation.fails(index, SessionReply::Accepted(yes)) <==> yes == 0)
        }),
{
}

/// Whatever the error, the message of a failed activation names what failed.
pub proof fn law_message_names_the_call(index: int, error: String, yes: u8, nil: bool)
    requires
        0 <= index < Activation.calls().len(),
    ensures
        ({
            let call = Activation.calls()[index];
            let lost = Activation::message(index, SessionReply::Found(Err(error)));
            let absent = Activation::message(index, SessionReply::Object { nil });
            let refused = Activation::message(index, SessionReply::Accepted(yes));
            &&& call is LoadRuntime || call is LoadAvfAudio ==> lost == error@
            &&& call == SessionCall::Resolve(RuntimeSymbol::GetClass) ==> lost == "objc_getClass: "@
                + error@
            &&& call == SessionCall::Resolve(RuntimeSymbol::RegisterName) ==> lost
                == "sel_registerName: "@ + error@
            &&& call == SessionCall::Resolve(RuntimeSymbol::MsgSend) ==> lost == "objc_msgSend: "@
                + error@
            &&& call == SessionCall::GetClass(RuntimeClass::AudioSession) ==> absent
                == "AVAudioSession class not found"@
            &&& call == SessionCall::Send(Message::SharedInstance) ==> absent
                == "AVAudioSession sharedInstance returned nil"@
            &&& call == SessionCall::GetClass(RuntimeClass::NsString) ==> absent
                == "NSString class not found"@
            &&& call == SessionCall::Send(Message::SetCategory) ==> refused
                == "AVAudioSession setCategory failed"@
            &&& call == SessionCall::Send(Message::SetActive { active: 1 }) ==> refused
                == "AVAudioSession setActive failed"@
        }),
{
}

} // verus!
