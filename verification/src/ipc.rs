//! The transport between the process that accepts jobs and the worker: the
//! message, its form on the wire, and how the worker's socket is set up.
//!
//! A connection carries one message and is closed. The message is written as
//! `bincode` writes it: every integer in fixed width and little-endian, a
//! variant as its index in four bytes, a string as its length in eight bytes
//! before its UTF-8 bytes.

use crate::context::{pushed, Context, push_component};
use crate::job::{Trigger, TriggerView};
use vstd::bytes::*;
use vstd::prelude::*;
use vstd::slice::*;
use vstd::string::*;
use vstd::utf8::*;

verus! {

/// What the intake tells the worker.
#[derive(Debug, PartialEq, Eq)]
pub enum IpcMessage {
    /// Run the scripts of `project`.
    Job { project: String, trigger: Trigger },
}

/// The view of an [`IpcMessage`].
pub enum IpcMessageView {
    Job { project: Seq<char>, trigger: TriggerView },
}

impl View for IpcMessage {
    type V = IpcMessageView;

    open spec fn view(&self) -> IpcMessageView {
        match self {
            IpcMessage::Job { project, trigger } => IpcMessageView::Job {
                project: project@,
                trigger: trigger@,
            },
        }
    }
}

/// Why a message did not get through.
#[derive(Debug, PartialEq, Eq)]
pub enum IpcError {
    /// The socket could not be bound, accepted from, read or written; the
    /// text says why.
    Io(String),
    /// What arrived is not a message; the text says why.
    Decode(String),
}

impl IpcError {
    /// The error as a person reads it: the reason it carries.
    pub open spec fn spec_description(&self) -> Seq<char> {
        match self {
            IpcError::Io(reason) => reason@,
            IpcError::Decode(reason) => reason@,
        }
    }

    /// The error as a person reads it: the reason it carries.
    pub fn description(&self) -> (r: &str)
        ensures
            r@ == self.spec_description(),
    {
        match self {
            IpcError::Io(reason) => reason.as_str(),
            IpcError::Decode(reason) => reason.as_str(),
        }
    }
}

/// The error type of `bincode`.
#[verifier::external_type_specification]
#[verifier::external_body]
pub struct ExBincodeErrorKind(bincode::ErrorKind);

/// Four bytes on the wire.
pub open spec fn wire_u32(value: u32) -> Seq<u8> {
    spec_u32_to_le_bytes(value)
}

/// A string on the wire: the number of its UTF-8 bytes in eight bytes, then
/// the bytes.
pub open spec fn wire_str(text: Seq<char>) -> Seq<u8> {
    spec_u64_to_le_bytes(encode_utf8(text).len() as u64) + encode_utf8(text)
}

/// The integer at the start of `bytes`, if there are four bytes.
pub open spec fn parse_u32(bytes: Seq<u8>) -> Option<u32> {
    if bytes.len() >= 4 {
        Some(spec_u32_from_le_bytes(bytes.subrange(0, 4)))
    } else {
        None
    }
}

/// The string at the start of `bytes`: there is one if there are eight bytes
/// of length, as many bytes after them as the length says, and these are
/// UTF-8.
pub open spec fn parse_str(bytes: Seq<u8>) -> Option<Seq<char>> {
    if bytes.len() >= 8 {
        let n = spec_u64_from_le_bytes(bytes.subrange(0, 8)) as int;
        if 8 + n <= bytes.len() && valid_utf8(bytes.subrange(8, 8 + n)) {
            Some(decode_utf8(bytes.subrange(8, 8 + n)))
        } else {
            None
        }
    } else {
        None
    }
}

/// Calls `bincode::serialize` on a `u32`.
///
/// With the options of that function an integer is written in fixed width and
/// little-endian, into memory and without a size limit: the call cannot fail,
/// and gives the four bytes of `value`.
#[verifier::external_body]
fn serialize_u32(value: u32) -> (r: Result<Vec<u8>, Box<bincode::ErrorKind>>)
    ensures
        match r {
            Ok(bytes) => bytes@ == wire_u32(value),
            Err(_) => false,
        },
{
    bincode::serialize(&value)
}

/// Calls `bincode::serialize` on a string slice.
///
/// A string is written as the number of its bytes, an eight-byte
/// little-endian integer, and then its bytes; into memory and without a size
/// limit the call cannot fail.
#[verifier::external_body]
fn serialize_str(text: &str) -> (r: Result<Vec<u8>, Box<bincode::ErrorKind>>)
    ensures
        match r {
            Ok(bytes) => bytes@ == wire_str(text@),
            Err(_) => false,
        },
{
    bincode::serialize(text)
}

/// Calls `bincode::deserialize` for a `u32`.
///
/// It reads the first four bytes as a little-endian integer and ignores what
/// follows them; it fails exactly when there are fewer than four bytes.
#[verifier::external_body]
fn deserialize_u32(bytes: &[u8]) -> (r: Result<u32, Box<bincode::ErrorKind>>)
    ensures
        match r {
            Ok(value) => parse_u32(bytes@) == Some(value),
            Err(_) => parse_u32(bytes@) is None,
        },
{
    bincode::deserialize::<u32>(bytes)
}

/// Calls `bincode::deserialize` for a `String`.
///
/// It reads an eight-byte little-endian length and then that many bytes, which
/// must be UTF-8, and ignores what follows them; it fails when the bytes run
/// out or are not UTF-8.
#[verifier::external_body]
fn deserialize_string(bytes: &[u8]) -> (r: Result<String, Box<bincode::ErrorKind>>)
    ensures
        match r {
            Ok(text) => parse_str(bytes@) == Some(text@),
            Err(_) => parse_str(bytes@) is None,
        },
{
    bincode::deserialize::<String>(bytes)
}

/// Calls `to_string` on an error of `bincode`: the error as text. Nothing is
/// stated of the text.
#[verifier::external_body]
fn error_text(error: &bincode::ErrorKind) -> String {
    error.to_string()
}

/// A trigger on the wire: the index of its variant, then its field if it has
/// one.
pub open spec fn wire_trigger(trigger: TriggerView) -> Seq<u8> {
    match trigger {
        TriggerView::Webhook { token } => wire_u32(0) + wire_str(token),
        TriggerView::Cli => wire_u32(1),
        TriggerView::Telegram { username } => wire_u32(2) + wire_str(username),
    }
}

/// A message on the wire: the index of its variant, then its fields in order.
pub open spec fn wire_message(message: IpcMessageView) -> Seq<u8> {
    match message {
        IpcMessageView::Job { project, trigger } => wire_u32(0) + wire_str(project) + wire_trigger(
            trigger,
        ),
    }
}

/// The trigger at the start of `bytes`, if there is one.
pub open spec fn parse_trigger(bytes: Seq<u8>) -> Option<TriggerView> {
    match parse_u32(bytes) {
        Some(index) => {
            if index == 0 {
                match parse_str(bytes.skip(4)) {
                    Some(token) => Some(TriggerView::Webhook { token }),
                    None => None,
                }
            } else if index == 1 {
                Some(TriggerView::Cli)
            } else if index == 2 {
                match parse_str(bytes.skip(4)) {
                    Some(username) => Some(TriggerView::Telegram { username }),
                    None => None,
                }
            } else {
                None
            }
        },
        None => None,
    }
}

/// The message at the start of `bytes`, if there is one. Bytes after the
/// message are not looked at.
pub open spec fn parse_message(bytes: Seq<u8>) -> Option<IpcMessageView> {
    match (parse_u32(bytes), parse_str(bytes.skip(4))) {
        (Some(index), Some(project)) => {
            if index == 0 {
                match parse_trigger(bytes.skip(12 + encode_utf8(project).len() as int)) {
                    Some(trigger) => Some(IpcMessageView::Job { project, trigger }),
                    None => None,
                }
            } else {
                None
            }
        },
        _ => None,
    }
}

fn put_u32(out: &mut Vec<u8>, value: u32)
    ensures
        final(out)@ == old(out)@ + wire_u32(value),
{
    match serialize_u32(value) {
        Ok(mut bytes) => {
            out.append(&mut bytes);
        },
        Err(_) => {
            assert(false);
        },
    }
}

fn put_str(out: &mut Vec<u8>, text: &str)
    ensures
        final(out)@ == old(out)@ + wire_str(text@),
{
    match serialize_str(text) {
        Ok(mut bytes) => {
            out.append(&mut bytes);
        },
        Err(_) => {
            assert(false);
        },
    }
}

/// Writes `message` as it goes over the wire.
pub fn encode(message: &IpcMessage) -> (r: Vec<u8>)
    ensures
        r@ == wire_message(message@),
{
    let mut out: Vec<u8> = Vec::new();
    match message {
        IpcMessage::Job { project, trigger } => {
            put_u32(&mut out, 0);
            put_str(&mut out, project.as_str());
            match trigger {
                Trigger::Webhook { token } => {
                    put_u32(&mut out, 0);
                    put_str(&mut out, token.as_str());
                },
                Trigger::Cli => {
                    put_u32(&mut out, 1);
                },
                Trigger::Telegram { username } => {
                    put_u32(&mut out, 2);
                    put_str(&mut out, username.as_str());
                },
            }
        },
    }
    assert(out@ =~= wire_message(message@));
    out
}

fn decode_error(error: Box<bincode::ErrorKind>) -> (r: IpcError)
    ensures
        r is Decode,
{
    IpcError::Decode(error_text(&*error))
}

fn take_trigger(bytes: &[u8]) -> (r: Result<Trigger, IpcError>)
    ensures
        match r {
            Ok(trigger) => parse_trigger(bytes@) == Some(trigger@),
            Err(e) => parse_trigger(bytes@) is None && e is Decode,
        },
{
    let index = match deserialize_u32(bytes) {
        Ok(index) => index,
        Err(e) => {
            return Err(decode_error(e));
        },
    };
    if index == 1 {
        return Ok(Trigger::Cli);
    }
    if index != 0 && index != 2 {
        return Err(IpcError::Decode(String::from_str("unknown trigger")));
    }
    let rest = slice_subrange(bytes, 4, bytes.len());
    assert(rest@ =~= bytes@.skip(4));
    match deserialize_string(rest) {
        Ok(text) => {
            if index == 0 {
                Ok(Trigger::Webhook { token: text })
            } else {
                Ok(Trigger::Telegram { username: text })
            }
        },
        Err(e) => Err(decode_error(e)),
    }
}

/// Reads the one message that a connection carried. What is not a message is
/// a `Decode` error.
pub fn decode(bytes: &[u8]) -> (r: Result<IpcMessage, IpcError>)
    ensures
        match r {
            Ok(message) => parse_message(bytes@) == Some(message@),
            Err(e) => parse_message(bytes@) is None && e is Decode,
        },
{
    let index = match deserialize_u32(bytes) {
        Ok(index) => index,
        Err(e) => {
            return Err(decode_error(e));
        },
    };
    let rest = slice_subrange(bytes, 4, bytes.len());
    assert(rest@ =~= bytes@.skip(4));
    let project = match deserialize_string(rest) {
        Ok(project) => project,
        Err(e) => {
            return Err(decode_error(e));
        },
    };
    if index != 0 {
        return Err(IpcError::Decode(String::from_str("unknown message")));
    }
    proof {
        lemma_parsed_length(rest@);
    }
    let used = project.as_str().len();
    let tail = slice_subrange(bytes, 12 + used, bytes.len());
    assert(tail@ =~= bytes@.skip(12 + used));
    match take_trigger(tail) {
        Ok(trigger) => Ok(IpcMessage::Job { project, trigger }),
        Err(e) => Err(e),
    }
}

/// A string that was read from `bytes` takes up eight bytes and its own
/// UTF-8 bytes, all of them within `bytes`.
proof fn lemma_parsed_length(bytes: Seq<u8>)
    requires
        parse_str(bytes) is Some,
    ensures
        8 + encode_utf8(parse_str(bytes)->0).len() <= bytes.len(),
        encode_utf8(parse_str(bytes)->0).len() == spec_u64_from_le_bytes(bytes.subrange(0, 8)),
{
    let n = spec_u64_from_le_bytes(bytes.subrange(0, 8)) as int;
    decode_utf8_encode_utf8(bytes.subrange(8, 8 + n));
}

/// A string that was written is read back, whatever follows it.
pub proof fn lemma_str_round_trip(text: Seq<char>, rest: Seq<u8>)
    requires
        encode_utf8(text).len() <= u64::MAX,
    ensures
        parse_str(wire_str(text) + rest) == Some(text),
        wire_str(text).len() == 8 + encode_utf8(text).len(),
{
    let body = encode_utf8(text);
    let all = wire_str(text) + rest;
    lemma_auto_spec_u64_to_from_le_bytes();
    assert(all.subrange(0, 8) =~= spec_u64_to_le_bytes(body.len() as u64));
    assert(all.subrange(8, 8 + body.len() as int) =~= body);
    encode_utf8_valid_utf8(text);
    encode_utf8_decode_utf8(text);
}

/// An integer that was written is read back, whatever follows it.
pub proof fn lemma_u32_round_trip(value: u32, rest: Seq<u8>)
    ensures
        parse_u32(wire_u32(value) + rest) == Some(value),
        wire_u32(value).len() == 4,
        (wire_u32(value) + rest).skip(4) == rest,
{
    lemma_auto_spec_u32_to_from_le_bytes();
    let all = wire_u32(value) + rest;
    assert(all.subrange(0, 4) =~= wire_u32(value));
    assert(all.skip(4) =~= rest);
}

/// Whether the strings of a trigger are short enough for their lengths to be
/// written in eight bytes.
pub open spec fn trigger_fits(trigger: TriggerView) -> bool {
    match trigger {
        TriggerView::Webhook { token } => encode_utf8(token).len() <= u64::MAX,
        TriggerView::Cli => true,
        TriggerView::Telegram { username } => encode_utf8(username).len() <= u64::MAX,
    }
}

/// Whether the strings of a message are short enough for their lengths to be
/// written in eight bytes.
pub open spec fn message_fits(message: IpcMessageView) -> bool {
    match message {
        IpcMessageView::Job { project, trigger } => encode_utf8(project).len() <= u64::MAX
            && trigger_fits(trigger),
    }
}

/// A trigger that was written is read back, whatever follows it.
pub proof fn lemma_trigger_round_trip(trigger: TriggerView, rest: Seq<u8>)
    requires
        trigger_fits(trigger),
    ensures
        parse_trigger(wire_trigger(trigger) + rest) == Some(trigger),
{
    match trigger {
        TriggerView::Webhook { token } => {
            lemma_u32_round_trip(0, wire_str(token) + rest);
            lemma_str_round_trip(token, rest);
            assert(wire_trigger(trigger) + rest =~= wire_u32(0) + (wire_str(token) + rest));
        },
        TriggerView::Cli => {
            lemma_u32_round_trip(1, rest);
        },
        TriggerView::Telegram { username } => {
            lemma_u32_round_trip(2, wire_str(username) + rest);
            lemma_str_round_trip(username, rest);
            assert(wire_trigger(trigger) + rest =~= wire_u32(2) + (wire_str(username) + rest));
        },
    }
}

/// Round trip. A message that is written and read back is the message that
/// was written, also when other bytes follow it on the wire.
pub proof fn law_message_round_trip(message: IpcMessageView, rest: Seq<u8>)
    requires
        message_fits(message),
    ensures
        parse_message(wire_message(message) + rest) == Some(message),
{
    match message {
        IpcMessageView::Job { project, trigger } => {
            let after_project = wire_trigger(trigger) + rest;
            let after_index = wire_str(project) + after_project;
            let all = wire_message(message) + rest;
            assert(all =~= wire_u32(0) + after_index);
            lemma_u32_round_trip(0, after_index);
            lemma_str_round_trip(project, after_project);
            assert(all.skip(12 + encode_utf8(project).len() as int) =~= after_project);
            lemma_trigger_round_trip(trigger, rest);
        },
    }
}

/// The name of the worker's socket in the runtime directory.
pub const SOCKET_FILE_NAME: &'static str = "toby-workerd.sock";

/// The path of the worker's socket: `toby-workerd.sock` in the runtime
/// directory.
pub fn socket_path(context: &Context) -> (r: String)
    ensures
        r@ == pushed(context@.runtime_path, "toby-workerd.sock"@),
{
    push_component(context.runtime_path(), SOCKET_FILE_NAME)
}

/// One step of setting up the worker's socket.
#[derive(Debug, Clone, Copy, PartialEq, Eq, Structural)]
pub enum BindStep {
    /// Create the runtime directory, with its parents.
    CreateRuntimeDir,
    /// Remove the socket file that an earlier server left behind.
    RemoveStaleSocket,
    /// Bind the socket.
    Bind,
    /// Hand the socket file to this user and group, so that a peer with
    /// other rights may connect.
    ChangeOwner { uid: u32, gid: u32 },
}

/// The steps that set up the socket, in order: the runtime directory is
/// created if it is missing, a socket file that is already there is removed,
/// the socket is bound, and its owner is changed if one is asked for.
pub open spec fn bind_steps(dir_exists: bool, socket_exists: bool, owner: Option<(u32, u32)>) -> Seq<
    BindStep,
> {
    (if dir_exists {
        Seq::<BindStep>::empty()
    } else {
        seq![BindStep::CreateRuntimeDir]
    }) + (if socket_exists {
        seq![BindStep::RemoveStaleSocket]
    } else {
        Seq::<BindStep>::empty()
    }) + seq![BindStep::Bind] + (match owner {
        Some((uid, gid)) => seq![BindStep::ChangeOwner { uid, gid }],
        None => Seq::<BindStep>::empty(),
    })
}

/// What a server is made from: where its socket lies and who is to own it.
#[derive(Debug, PartialEq, Eq)]
pub struct IpcServerBuilder {
    runtime_path: String,
    socket: String,
    owner: Option<(u32, u32)>,
}

impl IpcServerBuilder {
    /// The directory of the socket.
    pub closed spec fn spec_runtime_path(&self) -> Seq<char> {
        self.runtime_path@
    }

    /// The path of the socket.
    pub closed spec fn spec_socket(&self) -> Seq<char> {
        self.socket@
    }

    /// The user and the group that are to own the socket file, if any.
    pub closed spec fn spec_owner(&self) -> Option<(u32, u32)> {
        self.owner
    }

    /// A builder for the socket of `context`, with no change of owner.
    pub fn new(context: &Context) -> (r: IpcServerBuilder)
        ensures
            r.spec_runtime_path() == context@.runtime_path,
            r.spec_socket() == pushed(context@.runtime_path, "toby-workerd.sock"@),
            r.spec_owner() is None,
    {
        IpcServerBuilder {
            runtime_path: String::from_str(context.runtime_path()),
            socket: socket_path(context),
            owner: None,
        }
    }

    /// The same builder, with the socket file handed to `owner`, a user id and
    /// a group id, once it is bound.
    pub fn owner(self, owner: (u32, u32)) -> (r: IpcServerBuilder)
        ensures
            r.spec_runtime_path() == self.spec_runtime_path(),
            r.spec_socket() == self.spec_socket(),
            r.spec_owner() == Some(owner),
    {
        IpcServerBuilder { runtime_path: self.runtime_path, socket: self.socket, owner: Some(owner) }
    }

    /// The directory of the socket.
    pub fn runtime_path(&self) -> (r: &str)
        ensures
            r@ == self.spec_runtime_path(),
    {
        self.runtime_path.as_str()
    }

    /// The path of the socket. It is also the file that is removed when the
    /// server goes away, on every way out.
    pub fn socket(&self) -> (r: &str)
        ensures
            r@ == self.spec_socket(),
    {
        self.socket.as_str()
    }

    /// The steps that set up the socket, given what is on disk: whether the
    /// runtime directory exists and whether a socket file is already there.
    pub fn bind(&self, dir_exists: bool, socket_exists: bool) -> (r: Vec<BindStep>)
        ensures
            r@ == bind_steps(dir_exists, socket_exists, self.spec_owner()),
    {
        let mut steps: Vec<BindStep> = Vec::new();
        if !dir_exists {
            steps.push(BindStep::CreateRuntimeDir);
        }
        if socket_exists {
            steps.push(BindStep::RemoveStaleSocket);
        }
        steps.push(BindStep::Bind);
        match self.owner {
            Some((uid, gid)) => {
                steps.push(BindStep::ChangeOwner { uid, gid });
            },
            None => {},
        }
        assert(steps@ =~= bind_steps(dir_exists, socket_exists, self.spec_owner()));
        steps
    }
}

} // verus!
