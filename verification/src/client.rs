//! The command façade: a cloneable handle that callers use to issue typed
//! commands without touching the connection.
//!
//! Each operation builds a command array matching the player's command
//! grammar — the builders are verified against spec functions that give the
//! array element by element — and queues it, together with a fresh one-shot
//! reply channel, for the one reactor that owns the connection. The caller
//! then waits on the returned receiver; decoding a reply payload into a
//! typed value is verified here for every value the parse can give.

use vstd::prelude::*;

use crate::channels::{property_channel, reply_channel};
use crate::message::Outcome;
use crate::reactor::Command;
use crate::wire::{parts_ok, CommandPart, CommandPartModel};
use tokio::sync::mpsc;
use tokio::sync::oneshot;

verus! {

/// What can go wrong between issuing a command and decoding its reply.
#[derive(Debug)]
pub enum Error {
    /// The player answered with a failure status; carries its message.
    Mpv(String),
    /// The command queue is closed: the reactor is gone.
    CommandsChannelClosed,
    /// The reply payload does not have the shape the command promises.
    InvalidResponse,
}

/// The reply payload of a load command: where the entry landed.
#[derive(Debug)]
pub struct LoadFile {
    pub playlist_entry_id: i64,
}

/// One entry of the player's playlist.
#[derive(Debug)]
pub struct PlaylistEntry {
    pub id: u64,
    pub filename: String,
    pub title: Option<String>,
    pub current: bool,
    pub playing: bool,
}

/// Placement policy for a newly loaded file.
#[derive(Debug, Clone, Copy, PartialEq, Eq, Structural)]
pub enum LoadFileOptions {
    /// Replace the current playlist.
    Replace,
    /// Append without starting playback.
    Append,
    /// Append and play it.
    AppendPlay,
    /// Insert after the current entry, without starting playback.
    InsertNext,
    /// Insert after the current entry and play it.
    InsertNextPlay,
    /// Insert at this index, without starting playback.
    InsertAt(u64),
    /// Insert at this index and play it.
    InsertAtPlay(u64),
}

/// Options of an overlay-add command. The pixel format is always `bgra` and
/// the stride is the width times four.
#[derive(Debug, Clone)]
pub struct OverlayAddOptions {
    pub id: u8,
    pub x: i32,
    pub y: i32,
    pub file: String,
    pub offset: usize,
    pub w: u32,
    pub h: u32,
}

/// Mathematical image of [`OverlayAddOptions`].
pub struct OverlayAddOptionsModel {
    pub id: u8,
    pub x: i32,
    pub y: i32,
    pub file: Seq<char>,
    pub offset: usize,
    pub w: u32,
    pub h: u32,
}

impl DeepView for OverlayAddOptions {
    type V = OverlayAddOptionsModel;

    open spec fn deep_view(&self) -> OverlayAddOptionsModel {
        OverlayAddOptionsModel {
            id: self.id,
            x: self.x,
            y: self.y,
            file: self.file@,
            offset: self.offset,
            w: self.w,
            h: self.h,
        }
    }
}

/// The command array that loads `url` under a placement policy: the
/// protocol keyword for the policy, plus the stringified index for the
/// indexed placements.
pub open spec fn load_file_parts(url: Seq<char>, options: LoadFileOptions) -> Seq<
    CommandPartModel,
> {
    match options {
        LoadFileOptions::Replace => seq![
            CommandPartModel::Text("loadfile"@),
            CommandPartModel::Text(url),
            CommandPartModel::Text("replace"@),
        ],
        LoadFileOptions::Append => seq![
            CommandPartModel::Text("loadfile"@),
            CommandPartModel::Text(url),
            CommandPartModel::Text("append"@),
        ],
        LoadFileOptions::AppendPlay => seq![
            CommandPartModel::Text("loadfile"@),
            CommandPartModel::Text(url),
            CommandPartModel::Text("append-play"@),
        ],
        LoadFileOptions::InsertNext => seq![
            CommandPartModel::Text("loadfile"@),
            CommandPartModel::Text(url),
            CommandPartModel::Text("insert-next"@),
        ],
        LoadFileOptions::InsertNextPlay => seq![
            CommandPartModel::Text("loadfile"@),
            CommandPartModel::Text(url),
            CommandPartModel::Text("insert-next-play"@),
        ],
        LoadFileOptions::InsertAt(index) => seq![
            CommandPartModel::Text("loadfile"@),
            CommandPartModel::Text(url),
            CommandPartModel::Text("insert-at"@),
            CommandPartModel::IntText(index),
        ],
        LoadFileOptions::InsertAtPlay(index) => seq![
            CommandPartModel::Text("loadfile"@),
            CommandPartModel::Text(url),
            CommandPartModel::Text("insert-at-play"@),
            CommandPartModel::IntText(index),
        ],
    }
}

/// The command array that reads one property.
pub open spec fn property_query_parts(name: Seq<char>) -> Seq<CommandPartModel> {
    seq![CommandPartModel::Text("get_property"@), CommandPartModel::Text(name)]
}

/// The command array that skips to the next playlist entry.
pub open spec fn playlist_next_parts() -> Seq<CommandPartModel> {
    seq![CommandPartModel::Text("playlist-next"@)]
}

/// The command array that adds an overlay: always the `bgra` pixel format,
/// with the stride derived as width times four.
pub open spec fn overlay_add_parts(o: OverlayAddOptionsModel) -> Seq<CommandPartModel> {
    seq![
        CommandPartModel::Text("overlay-add"@),
        CommandPartModel::IntText(o.id as u64),
        CommandPartModel::SignedText(o.x as i64),
        CommandPartModel::SignedText(o.y as i64),
        CommandPartModel::Text(o.file),
        CommandPartModel::IntText(o.offset as u64),
        CommandPartModel::Text("bgra"@),
        CommandPartModel::IntText(o.w as u64),
        CommandPartModel::IntText(o.h as u64),
        CommandPartModel::IntText(((o.w as u64) * 4) as u64),
    ]
}

/// The command array that removes the overlay with this id.
pub open spec fn overlay_remove_parts(id: u8) -> Seq<CommandPartModel> {
    seq![CommandPartModel::Text("overlay-remove"@), CommandPartModel::IntText(id as u64)]
}

/// Builds the load command for `url` under the given placement policy.
pub fn load_file_command(url: &str, options: &LoadFileOptions) -> (parts: Vec<CommandPart>)
    ensures
        parts.deep_view() == load_file_parts(url@, *options),
        parts_ok(parts.deep_view()),
{
    let mut parts: Vec<CommandPart> = Vec::new();
    parts.push(CommandPart::Text("loadfile".to_owned()));
    parts.push(CommandPart::Text(url.to_owned()));
    match options {
        LoadFileOptions::Replace => {
            parts.push(CommandPart::Text("replace".to_owned()));
        },
        LoadFileOptions::Append => {
            parts.push(CommandPart::Text("append".to_owned()));
        },
        LoadFileOptions::AppendPlay => {
            parts.push(CommandPart::Text("append-play".to_owned()));
        },
        LoadFileOptions::InsertNext => {
            parts.push(CommandPart::Text("insert-next".to_owned()));
        },
        LoadFileOptions::InsertNextPlay => {
            parts.push(CommandPart::Text("insert-next-play".to_owned()));
        },
        LoadFileOptions::InsertAt(index) => {
            parts.push(CommandPart::Text("insert-at".to_owned()));
            parts.push(CommandPart::IntText(*index));
        },
        LoadFileOptions::InsertAtPlay(index) => {
            parts.push(CommandPart::Text("insert-at-play".to_owned()));
            parts.push(CommandPart::IntText(*index));
        },
    }
    proof {
        assert(parts.deep_view() =~= load_file_parts(url@, *options));
    }
    parts
}

/// Builds the query for one property.
pub fn property_query_command(name: &str) -> (parts: Vec<CommandPart>)
    ensures
        parts.deep_view() == property_query_parts(name@),
        parts_ok(parts.deep_view()),
{
    let mut parts: Vec<CommandPart> = Vec::new();
    parts.push(CommandPart::Text("get_property".to_owned()));
    parts.push(CommandPart::Text(name.to_owned()));
    proof {
        assert(parts.deep_view() =~= property_query_parts(name@));
    }
    parts
}

/// Builds the skip-to-next-entry command.
pub fn playlist_next_command() -> (parts: Vec<CommandPart>)
    ensures
        parts.deep_view() == playlist_next_parts(),
        parts_ok(parts.deep_view()),
{
    let mut parts: Vec<CommandPart> = Vec::new();
    parts.push(CommandPart::Text("playlist-next".to_owned()));
    proof {
        assert(parts.deep_view() =~= playlist_next_parts());
    }
    parts
}

/// Builds the overlay-add command.
pub fn overlay_add_command(opts: &OverlayAddOptions) -> (parts: Vec<CommandPart>)
    ensures
        parts.deep_view() == overlay_add_parts(opts.deep_view()),
        parts_ok(parts.deep_view()),
{
    let mut parts: Vec<CommandPart> = Vec::new();
    parts.push(CommandPart::Text("overlay-add".to_owned()));
    parts.push(CommandPart::IntText(opts.id as u64));
    parts.push(CommandPart::SignedText(opts.x as i64));
    parts.push(CommandPart::SignedText(opts.y as i64));
    parts.push(CommandPart::Text(opts.file.clone()));
    parts.push(CommandPart::IntText(opts.offset as u64));
    parts.push(CommandPart::Text("bgra".to_owned()));
    parts.push(CommandPart::IntText(opts.w as u64));
    parts.push(CommandPart::IntText(opts.h as u64));
    parts.push(CommandPart::IntText((opts.w as u64) * 4));
    proof {
        assert(parts.deep_view() =~= overlay_add_parts(opts.deep_view()));
    }
    parts
}

/// Builds the overlay-remove command.
pub fn overlay_remove_command(id: u8) -> (parts: Vec<CommandPart>)
    ensures
        parts.deep_view() == overlay_remove_parts(id),
        parts_ok(parts.deep_view()),
{
    let mut parts: Vec<CommandPart> = Vec::new();
    parts.push(CommandPart::Text("overlay-remove".to_owned()));
    parts.push(CommandPart::IntText(id as u64));
    proof {
        assert(parts.deep_view() =~= overlay_remove_parts(id));
    }
    parts
}

/// Relies on `tokio::sync::mpsc::UnboundedSender::send`: queues the command
/// for the reactor, reporting whether the queue still has a receiver.
#[verifier::external_body]
fn send_to_reactor(tx: &mpsc::UnboundedSender<Command>, cmd: Command) -> (accepted: bool) {
    tx.send(cmd).is_ok()
}

/// Queues one command, paired with a fresh reply channel, and returns the
/// receiver its reply will resolve. Fails only when the queue is closed.
pub fn send_command(
    cmd: Vec<CommandPart>,
    commands_tx: &mpsc::UnboundedSender<Command>,
) -> (r: Result<oneshot::Receiver<Outcome>, Error>)
    ensures
        r matches Err(e) ==> e is CommandsChannelClosed,
{
    let (tx, rx) = reply_channel();
    if send_to_reactor(commands_tx, Command::WithResponse { command: cmd, handler: tx }) {
        Ok(rx)
    } else {
        Err(Error::CommandsChannelClosed)
    }
}

/// Queues a property observation: returns the receiver of its
/// acknowledgment and the stream of change notifications. Fails only when
/// the queue is closed.
pub fn observe_property(
    property: String,
    commands_tx: &mpsc::UnboundedSender<Command>,
) -> (r: Result<(oneshot::Receiver<Outcome>, mpsc::UnboundedReceiver<String>), Error>)
    ensures
        r matches Err(e) ==> e is CommandsChannelClosed,
{
    let (tx, rx) = reply_channel();
    let (data_tx, data_rx) = property_channel();
    if send_to_reactor(
        commands_tx,
        Command::ObserveProperty { property, handler: tx, data_tx },
    ) {
        Ok((rx, data_rx))
    } else {
        Err(Error::CommandsChannelClosed)
    }
}

/// The cloneable handle callers issue commands through. It only ever talks
/// to the reactor's command queue.
#[derive(Clone)]
pub struct Client {
    commands_tx: mpsc::UnboundedSender<Command>,
}

impl Client {
    /// A handle that queues into the given reactor queue.
    pub fn new(commands_tx: mpsc::UnboundedSender<Command>) -> Client {
        Client { commands_tx }
    }

    /// Loads `url` under a placement policy; the reply payload decodes with
    /// [`LoadFile::from_payload`].
    pub fn load_file(&self, url: &str, options: &LoadFileOptions) -> (r: Result<
        oneshot::Receiver<Outcome>,
        Error,
    >)
        ensures
            r matches Err(e) ==> e is CommandsChannelClosed,
    {
        send_command(load_file_command(url, options), &self.commands_tx)
    }

    /// Queries the playlist; the reply payload is its JSON text.
    pub fn get_playlist(&self) -> (r: Result<oneshot::Receiver<Outcome>, Error>)
        ensures
            r matches Err(e) ==> e is CommandsChannelClosed,
    {
        send_command(property_query_command("playlist"), &self.commands_tx)
    }

    /// Skips to the next playlist entry.
    pub fn playlist_next(&self) -> (r: Result<oneshot::Receiver<Outcome>, Error>)
        ensures
            r matches Err(e) ==> e is CommandsChannelClosed,
    {
        send_command(playlist_next_command(), &self.commands_tx)
    }

    /// Adds an overlay in the fixed `bgra` format.
    pub fn overlay_add(&self, opts: &OverlayAddOptions) -> (r: Result<
        oneshot::Receiver<Outcome>,
        Error,
    >)
        ensures
            r matches Err(e) ==> e is CommandsChannelClosed,
    {
        send_command(overlay_add_command(opts), &self.commands_tx)
    }

    /// Removes the overlay with this id.
    pub fn overlay_remove(&self, id: u8) -> (r: Result<oneshot::Receiver<Outcome>, Error>)
        ensures
            r matches Err(e) ==> e is CommandsChannelClosed,
    {
        send_command(overlay_remove_command(id), &self.commands_tx)
    }

    /// Queries the duration of the current file, in milliseconds; the reply
    /// payload carries the number as JSON text.
    pub fn get_duration_ms(&self) -> (r: Result<oneshot::Receiver<Outcome>, Error>)
        ensures
            r matches Err(e) ==> e is CommandsChannelClosed,
    {
        send_command(property_query_command("duration/full"), &self.commands_tx)
    }

    /// Queries the playback position, in milliseconds; the reply payload
    /// carries the number as JSON text.
    pub fn get_time_pos_ms(&self) -> (r: Result<oneshot::Receiver<Outcome>, Error>)
        ensures
            r matches Err(e) ==> e is CommandsChannelClosed,
    {
        send_command(property_query_command("time-pos/full"), &self.commands_tx)
    }

    /// Queries whether playback is paused; the reply payload decodes with
    /// [`decode_paused`].
    pub fn get_paused(&self) -> (r: Result<oneshot::Receiver<Outcome>, Error>)
        ensures
            r matches Err(e) ==> e is CommandsChannelClosed,
    {
        send_command(property_query_command("pause"), &self.commands_tx)
    }

    /// Subscribes to a property's change notifications and requests the
    /// observation.
    pub fn observe_property(&self, property: &str) -> (r: Result<
        (oneshot::Receiver<Outcome>, mpsc::UnboundedReceiver<String>),
        Error,
    >)
        ensures
            r matches Err(e) ==> e is CommandsChannelClosed,
    {
        observe_property(property.to_owned(), &self.commands_tx)
    }
}

/// The integer under `key` in a JSON payload, as a function of the text and
/// the key alone.
pub uninterp spec fn i64_field_of(payload: Seq<char>, key: Seq<char>) -> Option<i64>;

/// Relies on `serde_json::from_str` and `serde_json::Value`'s `get` and
/// `as_i64`: the field read out of the payload depends on the payload text
/// and the key alone.
#[verifier::external_body]
fn json_i64_field(payload: &str, key: &str) -> (r: Option<i64>)
    ensures
        r == i64_field_of(payload@, key@),
{
    match serde_json::from_str::<serde_json::Value>(payload) {
        Ok(v) => v.get(key).and_then(|x| x.as_i64()),
        Err(_) => None,
    }
}

/// The boolean a JSON payload is, as a function of the text alone.
pub uninterp spec fn bool_of_json(payload: Seq<char>) -> Option<bool>;

/// Relies on `serde_json::from_str` and `serde_json::Value::as_bool`: the
/// boolean read out of the payload depends on the payload text alone.
#[verifier::external_body]
fn json_bool(payload: &str) -> (r: Option<bool>)
    ensures
        r == bool_of_json(payload@),
{
    match serde_json::from_str::<serde_json::Value>(payload) {
        Ok(v) => v.as_bool(),
        Err(_) => None,
    }
}

impl LoadFile {
    /// Decodes the reply payload of a load command: the id of the playlist
    /// entry the file landed in, or the invalid-response error where the
    /// payload has no such field.
    pub fn from_payload(payload: &str) -> (r: Result<LoadFile, Error>)
        ensures
            match i64_field_of(payload@, "playlist_entry_id"@) {
                Some(id) => r matches Ok(lf) && lf.playlist_entry_id == id,
                None => r matches Err(e) && e is InvalidResponse,
            },
    {
        match json_i64_field(payload, "playlist_entry_id") {
            Some(id) => Ok(LoadFile { playlist_entry_id: id }),
            None => Err(Error::InvalidResponse),
        }
    }
}

/// Decodes the reply payload of a pause query: the boolean it carries, or
/// the invalid-response error where the payload is not a boolean.
pub fn decode_paused(payload: &str) -> (r: Result<bool, Error>)
    ensures
        match bool_of_json(payload@) {
            Some(b) => r matches Ok(v) && v == b,
            None => r matches Err(e) && e is InvalidResponse,
        },
{
    match json_bool(payload) {
        Some(b) => Ok(b),
        None => Err(Error::InvalidResponse),
    }
}

} // verus!
