//! The now-playing widget: what is being listened to, as the live feed and
//! the listening history report it.

use crate::json::{
    flag_at, json_flag, json_length, json_number, json_string, length_at, number_at, string_at,
};
use crate::text::{decimal, parse_decimal, parsed_decimal, push_decimal, push_two_digits, two_digits};
use vstd::prelude::*;
use vstd::string::*;

verus! {

/// A message of the socket that carries the live feed.
#[derive(Debug)]
pub enum WsMessage {
    Text(String),
    Bytes(Vec<u8>),
}

/// The track that the live feed reports as playing.
#[derive(Debug)]
pub struct LanyardData {
    pub album_art: String,
    pub song_name: String,
    pub album_name: String,
    pub artist_name: String,
    /// When the track started, in milliseconds.
    pub start_time: u64,
    /// When the track ends, in milliseconds.
    pub end_time: u64,
}

/// One frame of the live feed.
#[derive(Debug)]
pub enum Lanyard {
    /// The feed's greeting, with the interval in milliseconds at which it
    /// wants to hear a heartbeat.
    Hello(u64),
    /// A track is playing.
    Playing(LanyardData),
    /// Nothing is playing.
    Idle,
}

/// One entry of the listening history.
#[derive(Debug)]
pub struct LastFmHistoryHOCProps {
    /// The time at which the entry is shown, in seconds.
    pub current_time: u64,
    pub album_art: String,
    pub album: String,
    pub song: String,
    pub artist: String,
    /// The time at which the track was listened to, in seconds; zero for
    /// the track that is playing.
    pub listened_at: u64,
}

/// One entry of the listening history as it is shown.
#[derive(Debug)]
pub struct LastFmHistoryProps {
    pub album_art: String,
    pub song: String,
    pub artist: String,
    pub formatted_time: String,
}

/// A command to the widget.
#[derive(Debug)]
pub enum Msg {
    LanyardMessage(WsMessage),
    UpdateTime,
    UpdateHistory,
    SaveHistory(Vec<LastFmHistoryHOCProps>),
    ToggleShowHistory,
}

/// Something the page has to do on the widget's behalf after a command.
#[derive(Debug, PartialEq, Eq, Clone, Copy, Structural)]
pub enum Task {
    /// Send the subscription frame to the live feed.
    Subscribe,
    /// Send a heartbeat frame to the live feed at this interval in
    /// milliseconds, from now on.
    Heartbeat(u32),
    /// Draw the widget again every second, from now on.
    StartClock,
    /// Stop drawing the widget every second.
    StopClock,
    /// Fetch the listening history.
    FetchHistory,
}

/// What a command leaves for the page to do.
#[derive(Debug)]
pub struct Outcome {
    /// Whether the widget has to be drawn again.
    pub render: bool,
    /// What else has to be done, in this order.
    pub tasks: Vec<Task>,
}

/// What the widget shows of the current track.
#[derive(Debug)]
pub struct Track {
    pub album_art: String,
    pub song: String,
    pub album: String,
    pub artist: String,
    /// How far the track has played, or that it is playing.
    pub status: String,
}

/// The widget.
#[derive(Debug)]
pub struct Spotify {
    /// The track that the live feed reports, if it reports one.
    pub lanyard_data: Option<LanyardData>,
    /// Whether the widget is drawn again every second.
    pub ticking: bool,
    /// Whether the listening history is unfolded.
    pub show_history: bool,
    /// The listening history, newest first.
    pub history: Vec<LastFmHistoryHOCProps>,
    /// The track that the listening history reports as playing.
    pub last_fm_current: Option<LastFmHistoryHOCProps>,
}

/// The heartbeat interval that is assumed where the greeting names none.
pub const DEFAULT_HEARTBEAT: u64 = 30000;

/// The number of seconds in a minute, an hour, a day, a month of thirty
/// days, and a year of 365 days.
pub const MINUTE: u64 = 60;

pub const HOUR: u64 = 3600;

pub const DAY: u64 = 86400;

pub const MONTH: u64 = 2592000;

pub const YEAR: u64 = 31536000;

/// How long ago something happened, `elapsed` seconds back, in the largest
/// unit of which at least one has gone by.
pub open spec fn time_ago(elapsed: nat) -> Seq<char> {
    if elapsed / (YEAR as nat) > 1 {
        decimal(elapsed / (YEAR as nat)) + " years ago"@
    } else if elapsed / (YEAR as nat) == 1 {
        "1 year ago"@
    } else if elapsed / (MONTH as nat) > 1 {
        decimal(elapsed / (MONTH as nat)) + " months ago"@
    } else if elapsed / (MONTH as nat) == 1 {
        "1 month ago"@
    } else if elapsed / (DAY as nat) > 1 {
        decimal(elapsed / (DAY as nat)) + " days ago"@
    } else if elapsed / (DAY as nat) == 1 {
        "1 day ago"@
    } else if elapsed / (HOUR as nat) > 1 {
        decimal(elapsed / (HOUR as nat)) + " hours ago"@
    } else if elapsed / (HOUR as nat) == 1 {
        "1 hour ago"@
    } else if elapsed / (MINUTE as nat) > 1 {
        decimal(elapsed / (MINUTE as nat)) + " minutes ago"@
    } else if elapsed / (MINUTE as nat) == 1 {
        "1 minute ago"@
    } else if elapsed > 1 {
        decimal(elapsed) + " seconds ago"@
    } else {
        "1 second ago"@
    }
}

/// A length of time in minutes and seconds, the seconds in two places.
pub open spec fn clock_time(seconds: nat) -> Seq<char> {
    decimal(seconds / 60) + ":"@ + two_digits(seconds % 60)
}

/// How far a track has played: the time gone by and the whole length, both
/// in minutes and seconds.
pub open spec fn progress(elapsed: nat, total: nat) -> Seq<char> {
    "Elapsed: "@ + clock_time(elapsed) + " / "@ + clock_time(total)
}

/// A number followed by the name of a unit.
fn counted(count: u64, unit: &str) -> (text: String)
    ensures
        text@ == decimal(count as nat) + unit@,
{
    let mut text = String::new();
    push_decimal(&mut text, count);
    text.append(unit);
    text
}

/// How long ago something happened, `elapsed` seconds back.
pub fn format_ago(elapsed: u64) -> (text: String)
    ensures
        text@ == time_ago(elapsed as nat),
{
    let minutes = elapsed / MINUTE;
    let hours = elapsed / HOUR;
    let days = elapsed / DAY;
    let months = elapsed / MONTH;
    let years = elapsed / YEAR;
    if years > 1 {
        counted(years, " years ago")
    } else if years == 1 {
        String::from_str("1 year ago")
    } else if months > 1 {
        counted(months, " months ago")
    } else if months == 1 {
        String::from_str("1 month ago")
    } else if days > 1 {
        counted(days, " days ago")
    } else if days == 1 {
        String::from_str("1 day ago")
    } else if hours > 1 {
        counted(hours, " hours ago")
    } else if hours == 1 {
        String::from_str("1 hour ago")
    } else if minutes > 1 {
        counted(minutes, " minutes ago")
    } else if minutes == 1 {
        String::from_str("1 minute ago")
    } else if elapsed > 1 {
        counted(elapsed, " seconds ago")
    } else {
        String::from_str("1 second ago")
    }
}

/// Appends a length of time in minutes and seconds to `out`.
fn push_clock_time(out: &mut String, seconds: u64)
    ensures
        final(out)@ == old(out)@ + clock_time(seconds as nat),
{
    push_decimal(out, seconds / 60);
    out.append(":");
    push_two_digits(out, seconds % 60);
}

/// A length of time in minutes and seconds.
pub fn format_time(seconds: u64) -> (text: String)
    ensures
        text@ == clock_time(seconds as nat),
{
    let mut text = String::new();
    push_clock_time(&mut text, seconds);
    text
}

impl LastFmHistoryProps {
    /// Whether this shows `entry` at the time `current_time`, in seconds.
    pub open spec fn shows(self, entry: LastFmHistoryHOCProps, current_time: u64) -> bool {
        &&& self.album_art == entry.album_art
        &&& self.song == entry.song
        &&& self.artist == entry.artist
        &&& self.formatted_time@ == time_ago((current_time - entry.listened_at) as nat)
    }
}

/// The entry `entry` of the listening history as it is shown at the time
/// `current_time`, in seconds.
fn shown_at(entry: &LastFmHistoryHOCProps, current_time: u64) -> (shown: LastFmHistoryProps)
    requires
        entry.listened_at <= current_time,
    ensures
        shown.shows(*entry, current_time),
{
    LastFmHistoryProps {
        album_art: entry.album_art.clone(),
        song: entry.song.clone(),
        artist: entry.artist.clone(),
        formatted_time: format_ago(current_time - entry.listened_at),
    }
}

/// The entry of the listening history as it is shown: the track, and how
/// long before the entry's current time it was listened to.
pub fn last_fm_history_hoc(props: &LastFmHistoryHOCProps) -> (shown: LastFmHistoryProps)
    requires
        props.listened_at <= props.current_time,
    ensures
        shown.shows(*props, props.current_time),
{
    shown_at(props, props.current_time)
}

/// Where a frame of the live feed holds its kind.
pub open spec fn op_pointer() -> Seq<char> {
    "/op"@
}

/// Whether the frame `text` is the feed's greeting.
pub open spec fn greets(text: Seq<char>) -> bool {
    json_number(text, op_pointer()) == Some(1u64)
}

/// Whether the frame `text` reports that a track is playing.
pub open spec fn listening(text: Seq<char>) -> bool {
    json_flag(text, "/d/listening_to_spotify"@) == Some(true)
}

/// Whether the frame `text` holds everything that is shown of a track.
pub open spec fn names_track(text: Seq<char>) -> bool {
    &&& json_string(text, "/d/spotify/album_art_url"@).is_some()
    &&& json_string(text, "/d/spotify/song"@).is_some()
    &&& json_string(text, "/d/spotify/album"@).is_some()
    &&& json_string(text, "/d/spotify/artist"@).is_some()
    &&& json_number(text, "/d/spotify/timestamps/start"@).is_some()
    &&& json_number(text, "/d/spotify/timestamps/end"@).is_some()
}

impl LanyardData {
    /// Whether this is the track that the frame `text` names.
    pub open spec fn read_from(self, text: Seq<char>) -> bool {
        &&& json_string(text, "/d/spotify/album_art_url"@) == Some(self.album_art@)
        &&& json_string(text, "/d/spotify/song"@) == Some(self.song_name@)
        &&& json_string(text, "/d/spotify/album"@) == Some(self.album_name@)
        &&& json_string(text, "/d/spotify/artist"@) == Some(self.artist_name@)
        &&& json_number(text, "/d/spotify/timestamps/start"@) == Some(self.start_time)
        &&& json_number(text, "/d/spotify/timestamps/end"@) == Some(self.end_time)
    }
}

impl Lanyard {
    /// Whether `text` can be read as a frame: it has a kind, and if it is
    /// no greeting and reports a track as playing, it names that track in
    /// full.
    pub open spec fn readable(text: Seq<char>) -> bool {
        &&& json_number(text, op_pointer()).is_some()
        &&& !greets(text) && listening(text) ==> names_track(text)
    }

    /// Whether this is the frame that `text` holds. A greeting that names
    /// no interval gets the default one.
    pub open spec fn read_from(self, text: Seq<char>) -> bool {
        match self {
            Lanyard::Hello(interval) => greets(text) && interval == match json_number(
                text,
                "/d/heartbeat_interval"@,
            ) {
                Some(interval) => interval,
                None => DEFAULT_HEARTBEAT,
            },
            Lanyard::Playing(track) => !greets(text) && listening(text) && track.read_from(text),
            Lanyard::Idle => !greets(text) && !listening(text),
        }
    }
}

/// Reads one frame of the live feed. A text without a kind, or one that
/// reports a track as playing and does not name it in full, is no frame.
pub fn read_frame(text: &str) -> (frame: Option<Lanyard>)
    ensures
        match frame {
            Some(frame) => Lanyard::readable(text@) && frame.read_from(text@),
            None => !Lanyard::readable(text@),
        },
{
    let op = match number_at(text, "/op") {
        Some(op) => op,
        None => {
            return None;
        },
    };
    if op == 1 {
        let interval = match number_at(text, "/d/heartbeat_interval") {
            Some(interval) => interval,
            None => DEFAULT_HEARTBEAT,
        };
        return Some(Lanyard::Hello(interval));
    }
    let playing = match flag_at(text, "/d/listening_to_spotify") {
        Some(playing) => playing,
        None => false,
    };
    if !playing {
        return Some(Lanyard::Idle);
    }
    let album_art = string_at(text, "/d/spotify/album_art_url");
    let song_name = string_at(text, "/d/spotify/song");
    let album_name = string_at(text, "/d/spotify/album");
    let artist_name = string_at(text, "/d/spotify/artist");
    let start_time = number_at(text, "/d/spotify/timestamps/start");
    let end_time = number_at(text, "/d/spotify/timestamps/end");
    match (album_art, song_name, album_name, artist_name, start_time, end_time) {
        (
            Some(album_art),
            Some(song_name),
            Some(album_name),
            Some(artist_name),
            Some(start_time),
            Some(end_time),
        ) => Some(
            Lanyard::Playing(
                LanyardData { album_art, song_name, album_name, artist_name, start_time, end_time },
            ),
        ),
        _ => None,
    }
}

/// The frame that subscribes to the live feed.
pub fn subscribe_frame() -> (frame: String)
    ensures
        frame@ == "{ \"op\": 2, \"d\": { \"subscribe_to_id\": \"195512978634833920\" } }"@,
{
    String::from_str("{ \"op\": 2, \"d\": { \"subscribe_to_id\": \"195512978634833920\" } }")
}

/// The frame that tells the live feed that the widget is still there.
pub fn heartbeat_frame() -> (frame: String)
    ensures
        frame@ == "{ \"op\": 3 }"@,
{
    String::from_str("{ \"op\": 3 }")
}

/// The first entry of `history` that stands for the track that is playing.
pub open spec fn current_of(history: Seq<LastFmHistoryHOCProps>) -> Option<LastFmHistoryHOCProps>
    decreases history.len(),
{
    if history.len() == 0 {
        None
    } else if history[0].listened_at == 0 {
        Some(history[0])
    } else {
        current_of(history.drop_first())
    }
}

/// The entries of `history` for tracks that were listened to in the past,
/// in the same order.
pub open spec fn past_of(history: Seq<LastFmHistoryHOCProps>) -> Seq<LastFmHistoryHOCProps>
    decreases history.len(),
{
    if history.len() == 0 {
        Seq::empty()
    } else if history.last().listened_at == 0 {
        past_of(history.drop_last())
    } else {
        past_of(history.drop_last()).push(history.last())
    }
}

/// A copy of an entry of the listening history.
fn duplicate(entry: &LastFmHistoryHOCProps) -> (copy: LastFmHistoryHOCProps)
    ensures
        copy == *entry,
{
    LastFmHistoryHOCProps {
        current_time: entry.current_time,
        album_art: entry.album_art.clone(),
        album: entry.album.clone(),
        song: entry.song.clone(),
        artist: entry.artist.clone(),
        listened_at: entry.listened_at,
    }
}

/// The interval of the heartbeat in the width of a timer's delay.
pub open spec fn timer_delay(interval: u64) -> u32 {
    (interval % 0x1_0000_0000) as u32
}

impl Track {
    /// Whether this shows the track `data` of the live feed at the time
    /// `now`, in milliseconds.
    pub open spec fn shows_live(self, data: LanyardData, now: u64) -> bool {
        &&& self.album_art == data.album_art
        &&& self.song == data.song_name
        &&& self.album == data.album_name
        &&& self.artist == data.artist_name
        &&& self.status@ == progress(
            ((now - data.start_time) / 1000) as nat,
            ((data.end_time - data.start_time) / 1000) as nat,
        )
    }

    /// Whether this shows the entry `entry` of the listening history as
    /// the track that is playing.
    pub open spec fn shows_recent(self, entry: LastFmHistoryHOCProps) -> bool {
        &&& self.album_art == entry.album_art
        &&& self.song == entry.song
        &&& self.album == entry.album
        &&& self.artist == entry.artist
        &&& self.status@ == "Currently listening"@
    }
}

impl Spotify {
    /// Whether nothing in the widget lies in the future of `now`, a time in
    /// milliseconds: the track of the live feed has started and does not
    /// end before it starts.
    pub open spec fn started(self, now: u64) -> bool {
        match self.lanyard_data {
            Some(data) => data.start_time <= now && data.start_time <= data.end_time,
            None => true,
        }
    }

    /// The widget after a frame of the live feed: a greeting changes
    /// nothing; any other frame sets the track that is playing, or that
    /// none is, and the widget is drawn every second while one is.
    pub open spec fn received(self, frame: Lanyard) -> Spotify {
        match frame {
            Lanyard::Hello(_) => self,
            Lanyard::Playing(track) => Spotify {
                lanyard_data: Some(track),
                ticking: true,
                ..self
            },
            Lanyard::Idle => Spotify { lanyard_data: None, ticking: false, ..self },
        }
    }

    /// What a frame of the live feed asks of the page: after a greeting to
    /// subscribe and to keep up the heartbeat, else to start or stop the
    /// clock.
    pub open spec fn tasks_after(frame: Lanyard) -> Seq<Task> {
        match frame {
            Lanyard::Hello(interval) => seq![Task::Subscribe, Task::Heartbeat(timer_delay(interval))],
            Lanyard::Playing(_) => seq![Task::StartClock],
            Lanyard::Idle => seq![Task::StopClock],
        }
    }

    /// A widget that knows of no track and keeps its history folded.
    pub fn new() -> (widget: Spotify)
        ensures
            widget.lanyard_data.is_none(),
            !widget.ticking,
            !widget.show_history,
            widget.history@.len() == 0,
            widget.last_fm_current.is_none(),
    {
        Spotify {
            lanyard_data: None,
            ticking: false,
            show_history: false,
            history: Vec::new(),
            last_fm_current: None,
        }
    }

    /// Takes in one frame of the live feed.
    pub fn receive(&mut self, frame: Lanyard) -> (outcome: Outcome)
        ensures
            *final(self) == old(self).received(frame),
            outcome.render,
            outcome.tasks@ == Self::tasks_after(frame),
    {
        let mut tasks = Vec::new();
        match frame {
            Lanyard::Hello(interval) => {
                tasks.push(Task::Subscribe);
                tasks.push(Task::Heartbeat((interval % 0x1_0000_0000) as u32));
            },
            Lanyard::Playing(track) => {
                self.lanyard_data = Some(track);
                self.ticking = true;
                tasks.push(Task::StartClock);
            },
            Lanyard::Idle => {
                self.lanyard_data = None;
                self.ticking = false;
                tasks.push(Task::StopClock);
            },
        }
        Outcome { render: true, tasks }
    }

    /// Takes in the listening history: the first entry that stands for the
    /// track that is playing becomes the current one.
    pub fn save_history(&mut self, history: Vec<LastFmHistoryHOCProps>)
        ensures
            *final(self) == (Spotify {
                history,
                last_fm_current: current_of(history@),
                ..*old(self)
            }),
    {
        let mut current: Option<LastFmHistoryHOCProps> = None;
        let mut i: usize = 0;
        assert(history@.skip(0) =~= history@);
        while i < history.len()
            invariant_except_break
                current.is_none(),
                current_of(history@) == current_of(history@.skip(i as int)),
            invariant
                i <= history@.len(),
            ensures
                current == current_of(history@),
            decreases history@.len() - i,
        {
            assert(history@.skip(i as int).drop_first() =~= history@.skip(i + 1));
            if history[i].listened_at == 0 {
                current = Some(duplicate(&history[i]));
                break;
            }
            i += 1;
        }
        self.last_fm_current = current;
        self.history = history;
    }

    /// Handles one command, and says what is left for the page to do. A
    /// text of the live feed that is no frame, and a message that is no
    /// text, are passed over.
    pub fn update(&mut self, msg: Msg) -> (outcome: Outcome)
        ensures
            match msg {
                Msg::LanyardMessage(WsMessage::Text(text)) => if Lanyard::readable(text@) {
                    exists|frame: Lanyard|
                        frame.read_from(text@) && *final(self) == old(self).received(frame)
                            && outcome.render && outcome.tasks@ == Self::tasks_after(frame)
                } else {
                    *final(self) == *old(self) && !outcome.render && outcome.tasks@.len() == 0
                },
                Msg::LanyardMessage(WsMessage::Bytes(_)) => *final(self) == *old(self)
                    && !outcome.render && outcome.tasks@.len() == 0,
                Msg::UpdateTime => *final(self) == *old(self) && outcome.render
                    && outcome.tasks@.len() == 0,
                Msg::UpdateHistory => *final(self) == *old(self) && !outcome.render
                    && outcome.tasks@ == seq![Task::FetchHistory],
                Msg::SaveHistory(history) => *final(self) == (Spotify {
                    history,
                    last_fm_current: current_of(history@),
                    ..*old(self)
                }) && outcome.render && outcome.tasks@.len() == 0,
                Msg::ToggleShowHistory => *final(self) == (Spotify {
                    show_history: !old(self).show_history,
                    ..*old(self)
                }) && outcome.render && outcome.tasks@.len() == 0,
            },
    {
        match msg {
            Msg::LanyardMessage(WsMessage::Text(text)) => {
                match read_frame(text.as_str()) {
                    Some(frame) => self.receive(frame),
                    None => Outcome { render: false, tasks: Vec::new() },
                }
            },
            Msg::LanyardMessage(WsMessage::Bytes(_)) => Outcome {
                render: false,
                tasks: Vec::new(),
            },
            Msg::UpdateTime => Outcome { render: true, tasks: Vec::new() },
            Msg::UpdateHistory => {
                let mut tasks = Vec::new();
                tasks.push(Task::FetchHistory);
                Outcome { render: false, tasks }
            },
            Msg::SaveHistory(history) => {
                self.save_history(history);
                Outcome { render: true, tasks: Vec::new() }
            },
            Msg::ToggleShowHistory => {
                self.show_history = !self.show_history;
                Outcome { render: true, tasks: Vec::new() }
            },
        }
    }

    /// What the widget shows of the current track at the time `now`, in
    /// milliseconds: the track of the live feed with how far it has played;
    /// failing that, the track that the listening history reports as
    /// playing; failing that, nothing.
    pub fn now_playing(&self, now: u64) -> (track: Option<Track>)
        requires
            self.started(now),
        ensures
            match (self.lanyard_data, self.last_fm_current) {
                (Some(data), _) => track matches Some(track) && track.shows_live(data, now),
                (None, Some(entry)) => track matches Some(track) && track.shows_recent(entry),
                (None, None) => track.is_none(),
            },
    {
        if let Some(data) = &self.lanyard_data {
            let elapsed = (now - data.start_time) / 1000;
            let total = (data.end_time - data.start_time) / 1000;
            let mut status = String::from_str("Elapsed: ");
            push_clock_time(&mut status, elapsed);
            status.append(" / ");
            push_clock_time(&mut status, total);
            Some(
                Track {
                    album_art: data.album_art.clone(),
                    song: data.song_name.clone(),
                    album: data.album_name.clone(),
                    artist: data.artist_name.clone(),
                    status,
                },
            )
        } else if let Some(entry) = &self.last_fm_current {
            Some(
                Track {
                    album_art: entry.album_art.clone(),
                    song: entry.song.clone(),
                    album: entry.album.clone(),
                    artist: entry.artist.clone(),
                    status: String::from_str("Currently listening"),
                },
            )
        } else {
            None
        }
    }

    /// The listening history as it is shown at the time `current_time`, in
    /// seconds: the tracks that were listened to in the past, in the order
    /// of the history, each with how long ago that was.
    pub fn past(&self, current_time: u64) -> (shown: Vec<LastFmHistoryProps>)
        requires
            forall|i: int|
                0 <= i < self.history@.len() ==> (#[trigger] self.history@[i]).listened_at
                    <= current_time,
        ensures
            shown@.len() == past_of(self.history@).len(),
            forall|k: int|
                0 <= k < shown@.len() ==> (#[trigger] shown@[k]).shows(
                    past_of(self.history@)[k],
                    current_time,
                ),
    {
        let mut shown: Vec<LastFmHistoryProps> = Vec::new();
        let mut i: usize = 0;
        while i < self.history.len()
            invariant
                i <= self.history@.len(),
                forall|j: int|
                    0 <= j < self.history@.len() ==> (#[trigger] self.history@[j]).listened_at
                        <= current_time,
                shown@.len() == past_of(self.history@.take(i as int)).len(),
                forall|k: int|
                    0 <= k < shown@.len() ==> (#[trigger] shown@[k]).shows(
                        past_of(self.history@.take(i as int))[k],
                        current_time,
                    ),
            decreases self.history@.len() - i,
        {
            assert(self.history@.take(i + 1).drop_last() =~= self.history@.take(i as int));
            if self.history[i].listened_at != 0 {
                shown.push(shown_at(&self.history[i], current_time));
            }
            i += 1;
        }
        assert(self.history@.take(i as int) =~= self.history@);
        shown
    }
}

/// Where the listening history holds its tracks.
pub open spec fn tracks_pointer() -> Seq<char> {
    "/recenttracks/track"@
}

/// Where the listening history holds the part `field` of its track `index`.
pub open spec fn track_pointer(index: nat, field: Seq<char>) -> Seq<char> {
    tracks_pointer() + "/"@ + decimal(index) + field
}

/// The string that was read, or the empty one.
pub open spec fn or_empty(found: Option<Seq<char>>) -> Seq<char> {
    match found {
        Some(string) => string,
        None => Seq::empty(),
    }
}

/// The time that a track was listened to, as the history writes it: a
/// decimal number in a string; zero where there is none.
pub open spec fn listened_at(found: Option<Seq<char>>) -> u64 {
    match found {
        Some(string) => match parsed_decimal(string) {
            Some(seconds) => seconds,
            None => 0,
        },
        None => 0,
    }
}

impl LastFmHistoryHOCProps {
    /// Whether this is the track `index` of the listening history `text`,
    /// read at the time `current_time`.
    pub open spec fn read_from(self, text: Seq<char>, index: nat, current_time: u64) -> bool {
        &&& self.current_time == current_time
        &&& self.album_art@ == or_empty(json_string(text, track_pointer(index, "/image/3/#text"@)))
        &&& self.album@ == or_empty(json_string(text, track_pointer(index, "/album/#text"@)))
        &&& self.song@ == or_empty(json_string(text, track_pointer(index, "/name"@)))
        &&& self.artist@ == or_empty(json_string(text, track_pointer(index, "/artist/#text"@)))
        &&& self.listened_at == listened_at(
            json_string(text, track_pointer(index, "/date/uts"@)),
        )
    }
}

/// The part `field` of the track `index` of the listening history `text`.
fn track_string(text: &str, index: usize, field: &str) -> (found: Option<String>)
    ensures
        match found {
            Some(string) => json_string(text@, track_pointer(index as nat, field@)) == Some(
                string@,
            ),
            None => json_string(text@, track_pointer(index as nat, field@)).is_none(),
        },
{
    let mut pointer = String::from_str("/recenttracks/track");
    pointer.append("/");
    push_decimal(&mut pointer, index as u64);
    pointer.append(field);
    string_at(text, pointer.as_str())
}

/// The string that was read, or the empty one.
fn unwrap_or_empty(found: Option<String>) -> (string: String)
    ensures
        string@ == or_empty(
            match found {
                Some(string) => Some(string@),
                None => None,
            },
        ),
{
    match found {
        Some(string) => string,
        None => String::new(),
    }
}

/// Reads the listening history at the time `current_time`, in seconds.
/// A text without a list of tracks is no history. A track lacks nothing:
/// what the text does not name is empty, and a track without a time is the
/// one that is playing.
pub fn read_history(text: &str, current_time: u64) -> (history: Option<Vec<LastFmHistoryHOCProps>>)
    ensures
        match history {
            Some(history) => json_length(text@, tracks_pointer()) == Some(history@.len() as usize)
                && forall|i: int|
                0 <= i < history@.len() ==> (#[trigger] history@[i]).read_from(
                    text@,
                    i as nat,
                    current_time,
                ),
            None => json_length(text@, tracks_pointer()).is_none(),
        },
{
    let count = match length_at(text, "/recenttracks/track") {
        Some(count) => count,
        None => {
            return None;
        },
    };
    let mut history: Vec<LastFmHistoryHOCProps> = Vec::new();
    let mut i: usize = 0;
    while i < count
        invariant
            i <= count,
            history@.len() == i,
            forall|j: int|
                0 <= j < i ==> (#[trigger] history@[j]).read_from(text@, j as nat, current_time),
        decreases count - i,
    {
        let album_art = unwrap_or_empty(track_string(text, i, "/image/3/#text"));
        let album = unwrap_or_empty(track_string(text, i, "/album/#text"));
        let song = unwrap_or_empty(track_string(text, i, "/name"));
        let artist = unwrap_or_empty(track_string(text, i, "/artist/#text"));
        let listened_at = match track_string(text, i, "/date/uts") {
            Some(written) => match parse_decimal(written.as_str()) {
                Some(seconds) => seconds,
                None => 0,
            },
            None => 0,
        };
        history.push(
            LastFmHistoryHOCProps { current_time, album_art, album, song, artist, listened_at },
        );
        i += 1;
    }
    Some(history)
}

} // verus!
