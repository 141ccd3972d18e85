//! The four commands that the cache sends to the key-value store, as plain
//! values, and their encoding as commands of the `redis` crate.

use vstd::prelude::*;
use vstd::string::*;
use vstd::utf8::*;

use crate::decimal::decimal;

verus! {

/// A command for the key-value store.
#[derive(Clone, Debug, PartialEq, Eq)]
pub enum Request {
    /// `GET key`
    Get { key: String },
    /// `SETEX key ttl value`: store `value`, to expire after `ttl` seconds.
    SetEx { key: String, ttl: usize, value: Vec<u8> },
    /// `SET key value`: store `value` without expiry.
    Persist { key: String, value: Vec<u8> },
    /// `DEL key`
    Del { key: String },
}

/// A command for the key-value store, as mathematical values.
pub enum RequestView {
    Get { key: Seq<char> },
    SetEx { key: Seq<char>, ttl: nat, value: Seq<u8> },
    Persist { key: Seq<char>, value: Seq<u8> },
    Del { key: Seq<char> },
}

impl View for Request {
    type V = RequestView;

    open spec fn view(&self) -> RequestView {
        match self {
            Request::Get { key } => RequestView::Get { key: key@ },
            Request::SetEx { key, ttl, value } => RequestView::SetEx {
                key: key@,
                ttl: *ttl as nat,
                value: value@,
            },
            Request::Persist { key, value } => RequestView::Persist { key: key@, value: value@ },
            Request::Del { key } => RequestView::Del { key: key@ },
        }
    }
}

impl RequestView {
    /// The key that the command is about.
    pub open spec fn key(self) -> Seq<char> {
        match self {
            RequestView::Get { key } => key,
            RequestView::SetEx { key, .. } => key,
            RequestView::Persist { key, .. } => key,
            RequestView::Del { key } => key,
        }
    }

    /// The command's verb.
    pub open spec fn verb(self) -> Seq<char> {
        match self {
            RequestView::Get { .. } => "GET"@,
            RequestView::SetEx { .. } => "SETEX"@,
            RequestView::Persist { .. } => "SET"@,
            RequestView::Del { .. } => "DEL"@,
        }
    }

    /// The arguments that go over the wire, the verb first: texts in UTF-8,
    /// the time to live in decimal digits, the value as it is.
    pub open spec fn wire_args(self) -> Seq<Seq<u8>> {
        match self {
            RequestView::Get { key } => seq![encode_utf8(self.verb()), encode_utf8(key)],
            RequestView::SetEx { key, ttl, value } => seq![
                encode_utf8(self.verb()),
                encode_utf8(key),
                decimal(ttl),
                value,
            ],
            RequestView::Persist { key, value } => seq![
                encode_utf8(self.verb()),
                encode_utf8(key),
                value,
            ],
            RequestView::Del { key } => seq![encode_utf8(self.verb()), encode_utf8(key)],
        }
    }
}

/// `redis::Cmd`, a command under construction. Opaque: the library speaks of
/// it through the arguments that it holds.
#[verifier::external_type_specification]
#[verifier::external_body]
pub struct ExCmd(redis::Cmd);

/// The arguments that a command of the `redis` crate holds, in order, the
/// command's name first.
pub uninterp spec fn command_args(cmd: redis::Cmd) -> Seq<Seq<u8>>;

/// `redis::cmd`. Trusted: the new command holds one argument, the name in
/// UTF-8.
#[verifier::external_body]
fn command(name: &str) -> (cmd: redis::Cmd)
    ensures
        command_args(cmd) == seq![name.spec_bytes()],
{
    redis::cmd(name)
}

/// `redis::Cmd::arg` on a text. Trusted: it appends one argument, the text in
/// UTF-8.
#[verifier::external_body]
fn arg_text(cmd: &mut redis::Cmd, text: &str)
    ensures
        command_args(*final(cmd)) == command_args(*old(cmd)).push(text.spec_bytes()),
{
    cmd.arg(text);
}

/// `redis::Cmd::arg` on a `usize`. Trusted: it appends one argument, the
/// number in decimal digits.
#[verifier::external_body]
fn arg_number(cmd: &mut redis::Cmd, number: usize)
    ensures
        command_args(*final(cmd)) == command_args(*old(cmd)).push(decimal(number as nat)),
{
    cmd.arg(number);
}

/// `redis::Cmd::arg` on a slice of bytes. Trusted: it appends one argument,
/// the bytes as they are.
#[verifier::external_body]
fn arg_bytes(cmd: &mut redis::Cmd, bytes: &[u8])
    ensures
        command_args(*final(cmd)) == command_args(*old(cmd)).push(bytes@),
{
    cmd.arg(bytes);
}

impl Request {
    /// The key that the command is about.
    pub fn key(&self) -> (key: &str)
        ensures
            key@ == self@.key(),
    {
        match self {
            Request::Get { key } => key.as_str(),
            Request::SetEx { key, .. } => key.as_str(),
            Request::Persist { key, .. } => key.as_str(),
            Request::Del { key } => key.as_str(),
        }
    }

    /// Encodes the command for the `redis` crate.
    pub fn to_cmd(&self) -> (cmd: redis::Cmd)
        ensures
            command_args(cmd) == self@.wire_args(),
    {
        match self {
            Request::Get { key } => {
                let mut cmd = command("GET");
                arg_text(&mut cmd, key.as_str());
                assert(command_args(cmd) =~= self@.wire_args());
                cmd
            },
            Request::SetEx { key, ttl, value } => {
                let mut cmd = command("SETEX");
                arg_text(&mut cmd, key.as_str());
                arg_number(&mut cmd, *ttl);
                arg_bytes(&mut cmd, value.as_slice());
                assert(command_args(cmd) =~= self@.wire_args());
                cmd
            },
            Request::Persist { key, value } => {
                let mut cmd = command("SET");
                arg_text(&mut cmd, key.as_str());
                arg_bytes(&mut cmd, value.as_slice());
                assert(command_args(cmd) =~= self@.wire_args());
                cmd
            },
            Request::Del { key } => {
                let mut cmd = command("DEL");
                arg_text(&mut cmd, key.as_str());
                assert(command_args(cmd) =~= self@.wire_args());
                cmd
            },
        }
    }
}

} // verus!
