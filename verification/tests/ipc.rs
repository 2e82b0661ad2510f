use serde::ser::SerializeStructVariant;
use serde::{Serialize, Serializer};
use toby::context::Context;
use toby::ipc::{decode, encode, socket_path, BindStep, IpcError, IpcMessage, IpcServerBuilder};
use toby::job::Trigger;

/// The message as a derived `Serialize` hands it to a serializer.
struct Wire<'a>(&'a IpcMessage);

struct WireTrigger<'a>(&'a Trigger);

impl<'a> Serialize for WireTrigger<'a> {
    fn serialize<S: Serializer>(&self, serializer: S) -> Result<S::Ok, S::Error> {
        match self.0 {
            Trigger::Webhook { token } => {
                let mut state = serializer.serialize_struct_variant("Trigger", 0, "Webhook", 1)?;
                state.serialize_field("token", token)?;
                state.end()
            }
            Trigger::Cli => serializer.serialize_unit_variant("Trigger", 1, "Cli"),
            Trigger::Telegram { username } => {
                let mut state = serializer.serialize_struct_variant("Trigger", 2, "Telegram", 1)?;
                state.serialize_field("username", username)?;
                state.end()
            }
        }
    }
}

impl<'a> Serialize for Wire<'a> {
    fn serialize<S: Serializer>(&self, serializer: S) -> Result<S::Ok, S::Error> {
        match self.0 {
            IpcMessage::Job { project, trigger } => {
                let mut state = serializer.serialize_struct_variant("IpcMessage", 0, "Job", 2)?;
                state.serialize_field("project", project)?;
                state.serialize_field("trigger", &WireTrigger(trigger))?;
                state.end()
            }
        }
    }
}

fn messages() -> Vec<IpcMessage> {
    vec![
        IpcMessage::Job { project: "foo".into(), trigger: Trigger::Cli },
        IpcMessage::Job { project: "".into(), trigger: Trigger::Cli },
        IpcMessage::Job {
            project: "dreams".into(),
            trigger: Trigger::Webhook { token: "travis".into() },
        },
        IpcMessage::Job {
            project: "naïve ☀️".into(),
            trigger: Trigger::Telegram { username: "ada".into() },
        },
        IpcMessage::Job { project: "x".repeat(300), trigger: Trigger::Webhook { token: "".into() } },
    ]
}

#[test]
fn ipc_test_ipc() {
    let sent = IpcMessage::Job { trigger: Trigger::Cli, project: "foo".into() };
    let on_the_wire = encode(&sent);
    let message = decode(&on_the_wire).unwrap();

    assert_eq!(IpcMessage::Job { trigger: Trigger::Cli, project: "foo".into() }, message);
}

#[test]
fn the_wire_form_of_a_cli_job() {
    let bytes = encode(&IpcMessage::Job { project: "foo".into(), trigger: Trigger::Cli });
    assert_eq!(
        vec![
            0, 0, 0, 0, // the variant `Job`
            3, 0, 0, 0, 0, 0, 0, 0, // the length of the project
            b'f', b'o', b'o', // the project
            1, 0, 0, 0, // the variant `Cli`
        ],
        bytes
    );
}

#[test]
fn the_wire_form_is_the_one_of_bincode() {
    for message in messages().iter() {
        assert_eq!(bincode::serialize(&Wire(message)).unwrap(), encode(message));
    }
}

#[test]
fn every_message_is_read_back() {
    for message in messages().iter() {
        assert_eq!(Ok(message), decode(&encode(message)).as_ref());
        assert_eq!(Ok(message), decode(&bincode::serialize(&Wire(message)).unwrap()).as_ref());
    }
}

#[test]
fn bytes_after_the_message_are_not_looked_at() {
    for message in messages().iter() {
        let mut bytes = encode(message);
        bytes.extend_from_slice(&[1, 2, 3]);
        assert_eq!(Ok(message), decode(&bytes).as_ref());
    }
}

fn is_decode_error(result: Result<IpcMessage, IpcError>) -> bool {
    match result {
        Err(IpcError::Decode(_)) => true,
        _ => false,
    }
}

#[test]
fn what_is_not_a_message_is_a_decode_error() {
    assert!(is_decode_error(decode(&[])));
    assert!(is_decode_error(decode(&[0, 0, 0])));
    // an unknown message
    assert!(is_decode_error(decode(&[1, 0, 0, 0, 0, 0, 0, 0, 0, 0, 0, 0, 1, 0, 0, 0])));
    // an unknown trigger
    assert!(is_decode_error(decode(&[0, 0, 0, 0, 0, 0, 0, 0, 0, 0, 0, 0, 3, 0, 0, 0])));
    // a project that is longer than what follows
    assert!(is_decode_error(decode(&[0, 0, 0, 0, 9, 0, 0, 0, 0, 0, 0, 0, b'f', 1, 0, 0, 0])));
    assert!(is_decode_error(decode(&[0, 0, 0, 0, 255, 255, 255, 255, 255, 255, 255, 255, 1])));
    // a project that is not UTF-8
    assert!(is_decode_error(decode(&[0, 0, 0, 0, 1, 0, 0, 0, 0, 0, 0, 0, 0xff, 1, 0, 0, 0])));
    // a webhook without its token
    assert!(is_decode_error(decode(&[0, 0, 0, 0, 0, 0, 0, 0, 0, 0, 0, 0, 0, 0, 0, 0])));
}

#[test]
fn every_cut_message_is_a_decode_error() {
    for message in messages().iter() {
        let bytes = encode(message);
        for len in 0..bytes.len() {
            assert!(is_decode_error(decode(&bytes[..len])), "{} of {}", len, bytes.len());
        }
    }
}

fn context() -> Context {
    Context::new("/etc/toby".into(), "/var/log/toby".into(), "/run/toby".into())
}

#[test]
fn the_socket_lies_in_the_runtime_directory() {
    assert_eq!("/run/toby/toby-workerd.sock", socket_path(&context()));
    let builder = IpcServerBuilder::new(&context());
    assert_eq!("/run/toby", builder.runtime_path());
    assert_eq!("/run/toby/toby-workerd.sock", builder.socket());
}

#[test]
fn bind_steps_on_a_fresh_machine() {
    let builder = IpcServerBuilder::new(&context());
    assert_eq!(vec![BindStep::CreateRuntimeDir, BindStep::Bind], builder.bind(false, false));
    assert_eq!(vec![BindStep::Bind], builder.bind(true, false));
}

#[test]
fn bind_removes_a_stale_socket() {
    let builder = IpcServerBuilder::new(&context());
    assert_eq!(vec![BindStep::RemoveStaleSocket, BindStep::Bind], builder.bind(true, true));
}

#[test]
fn bind_changes_the_owner_last() {
    let builder = IpcServerBuilder::new(&context()).owner((1000, 100));
    assert_eq!(
        vec![
            BindStep::RemoveStaleSocket,
            BindStep::Bind,
            BindStep::ChangeOwner { uid: 1000, gid: 100 },
        ],
        builder.bind(true, true)
    );
    assert_eq!(
        vec![
            BindStep::CreateRuntimeDir,
            BindStep::Bind,
            BindStep::ChangeOwner { uid: 1000, gid: 100 },
        ],
        builder.bind(false, false)
    );
}

#[test]
fn an_error_reads_as_its_reason() {
    assert_eq!("connection refused", IpcError::Io("connection refused".into()).description());
    assert_eq!("unknown message", IpcError::Decode("unknown message".into()).description());
    match decode(&[9, 0, 0, 0, 0, 0, 0, 0, 0, 0, 0, 0, 1, 0, 0, 0]) {
        Err(err) => assert_eq!("unknown message", err.description()),
        Ok(_) => panic!("an unknown message was read"),
    }
}
