//! The play queue and what the player keys do to it.
use vstd::prelude::*;
use vstd::string::*;

use crate::api::{copy_tracks, TrackSummary, TrackView};
use crate::text::str_equal;

verus! {

/// What a player key asks for.
#[derive(Debug, Clone, Copy, PartialEq, Eq, Structural)]
pub enum PlayerCommand {
    PlayPause,
    Next,
    Previous,
}

/// What happens when a track ends.
#[derive(Debug, Clone, Copy, PartialEq, Eq, Structural)]
pub enum PlaybackMode {
    Continue,
    RepeatOne,
}

impl Default for PlaybackMode {
    fn default() -> (r: Self)
        ensures
            r == PlaybackMode::Continue,
    {
        PlaybackMode::Continue
    }
}

/// The other mode.
pub open spec fn toggled(m: PlaybackMode) -> PlaybackMode {
    match m {
        PlaybackMode::Continue => PlaybackMode::RepeatOne,
        PlaybackMode::RepeatOne => PlaybackMode::Continue,
    }
}

/// The button text of a mode.
pub open spec fn mode_label(m: PlaybackMode) -> Seq<char> {
    match m {
        PlaybackMode::Continue => "След"@,
        PlaybackMode::RepeatOne => "Повтор"@,
    }
}

impl PlaybackMode {
    pub fn toggle(self) -> (r: Self)
        ensures
            r == toggled(self),
    {
        match self {
            PlaybackMode::Continue => PlaybackMode::RepeatOne,
            PlaybackMode::RepeatOne => PlaybackMode::Continue,
        }
    }

    pub fn label(self) -> (r: &'static str)
        ensures
            r@ == mode_label(self),
    {
        match self {
            PlaybackMode::Continue => "След",
            PlaybackMode::RepeatOne => "Повтор",
        }
    }
}

/// The player's queue as plain values.
pub struct PlayerView {
    /// The text of each queued track.
    pub queue: Seq<Seq<char>>,
    /// The queued tracks, where the queue was made from tracks; else empty.
    pub tracks: Seq<TrackView>,
    /// The position of the current track.
    pub current: Option<int>,
    pub playing: bool,
}

/// What every player state satisfies: the current position lies in the
/// queue, there is one exactly where the queue is not empty, and the tracks,
/// where there are any, match the queue one to one.
pub open spec fn well_placed(v: PlayerView) -> bool {
    &&& (v.current matches Some(i) ==> 0 <= i < v.queue.len())
    &&& (v.current is None <==> v.queue.len() == 0)
    &&& (v.tracks.len() == 0 || v.tracks.len() == v.queue.len())
}

/// The queue text of a track: `artist — title`.
pub open spec fn queue_label(t: TrackView) -> Seq<char> {
    t.artist + " — "@ + t.title
}

/// The first position of a queue of `len` entries, if any.
pub open spec fn start_index(len: int) -> Option<int> {
    if len == 0 {
        None
    } else {
        Some(0)
    }
}

/// The position after `current` in a queue of `len`, wrapping around.
pub open spec fn next_index(current: Option<int>, len: int) -> Option<int> {
    if len == 0 {
        None
    } else {
        match current {
            None => Some(0),
            Some(i) => Some((i + 1) % len),
        }
    }
}

/// The position before `current` in a queue of `len`, wrapping around.
pub open spec fn previous_index(current: Option<int>, len: int) -> Option<int> {
    if len == 0 {
        None
    } else {
        match current {
            None => Some(0),
            Some(i) => Some((i + len - 1) % len),
        }
    }
}

/// The state after `next`.
pub open spec fn next_view(v: PlayerView) -> PlayerView {
    PlayerView { current: next_index(v.current, v.queue.len() as int), ..v }
}

/// The state after `previous`.
pub open spec fn previous_view(v: PlayerView) -> PlayerView {
    PlayerView { current: previous_index(v.current, v.queue.len() as int), ..v }
}

/// The state after a player command.
pub open spec fn apply_view(v: PlayerView, c: PlayerCommand) -> PlayerView {
    match c {
        PlayerCommand::PlayPause => PlayerView { playing: !v.playing, ..v },
        PlayerCommand::Next => next_view(v),
        PlayerCommand::Previous => previous_view(v),
    }
}

/// The text of the current track.
pub open spec fn current_text(v: PlayerView) -> Option<Seq<char>> {
    match v.current {
        Some(i) => Some(v.queue[i]),
        None => None,
    }
}

/// The current track, where the queue was made from tracks.
pub open spec fn current_summary(v: PlayerView) -> Option<TrackView> {
    match v.current {
        Some(i) => if i < v.tracks.len() {
            Some(v.tracks[i])
        } else {
            None
        },
        None => None,
    }
}

/// Whether the current track is the last of the queue.
pub open spec fn at_last(v: PlayerView) -> bool {
    v.current matches Some(i) && i + 1 == v.queue.len()
}

/// The play queue: the text of each entry, the tracks behind it where it
/// was made from tracks, the current position, and whether it plays.
#[derive(Debug, PartialEq, Eq)]
pub struct PlayerState {
    queue: Vec<String>,
    tracks: Vec<TrackSummary>,
    current_index: Option<usize>,
    is_playing: bool,
}

impl View for PlayerState {
    type V = PlayerView;

    closed spec fn view(&self) -> PlayerView {
        PlayerView {
            queue: self.queue.deep_view(),
            tracks: self.tracks.deep_view(),
            current: match self.current_index {
                Some(i) => Some(i as int),
                None => None,
            },
            playing: self.is_playing,
        }
    }
}

impl Clone for PlayerState {
    /// A copy holding the same queue, tracks, position and playing state.
    fn clone(&self) -> (r: Self)
        ensures
            r@ == self@,
    {
        let mut queue: Vec<String> = Vec::new();
        let mut i: usize = 0;
        while i < self.queue.len()
            invariant
                i <= self.queue.len(),
                queue.deep_view() == self.queue.deep_view().take(i as int),
            decreases self.queue.len() - i,
        {
            let ghost before = queue.deep_view();
            queue.push(self.queue[i].clone());
            assert(queue.deep_view() =~= before.push(self.queue@[i as int]@));
            i = i + 1;
            assert(queue.deep_view() =~= self.queue.deep_view().take(i as int));
        }
        assert(self.queue.deep_view().take(self.queue.len() as int) =~= self.queue.deep_view());
        proof {
            use_type_invariant(self);
        }
        let tracks = copy_tracks(&self.tracks);
        assert(queue@.len() == queue.deep_view().len() && self.queue@.len()
            == self.queue.deep_view().len());
        assert(tracks@.len() == tracks.deep_view().len() && self.tracks@.len()
            == self.tracks.deep_view().len());
        PlayerState {
            queue,
            tracks,
            current_index: self.current_index,
            is_playing: self.is_playing,
        }
    }
}

impl Default for PlayerState {
    fn default() -> (r: Self)
        ensures
            r@ == (PlayerView { queue: seq![], tracks: seq![], current: None, playing: false }),
    {
        let r = PlayerState {
            queue: Vec::new(),
            tracks: Vec::new(),
            current_index: None,
            is_playing: false,
        };
        assert(r@.queue =~= Seq::<Seq<char>>::empty());
        assert(r@.tracks =~= Seq::<TrackView>::empty());
        r
    }
}

impl PlayerState {
    #[verifier::type_invariant]
    spec fn placed(self) -> bool {
        &&& (self.current_index matches Some(i) ==> i < self.queue.len())
        &&& (self.current_index is None <==> self.queue.len() == 0)
        &&& (self.tracks.len() == 0 || self.tracks.len() == self.queue.len())
    }

    /// Replaces the queue by these entries, without tracks, at its start, paused.
    pub fn set_queue(&mut self, queue: Vec<String>)
        ensures
            final(self)@ == (PlayerView {
                queue: queue.deep_view(),
                tracks: seq![],
                current: start_index(queue.len() as int),
                playing: false,
            }),
            well_placed(final(self)@),
    {
        let current_index = if queue.len() == 0 {
            None
        } else {
            Some(0)
        };
        *self = PlayerState { queue, tracks: Vec::new(), current_index, is_playing: false };
        assert(self@.tracks =~= Seq::<TrackView>::empty());
    }

    /// Replaces the queue by these tracks, at its start, paused.
    pub fn set_tracks(&mut self, tracks: Vec<TrackSummary>)
        ensures
            final(self)@ == (PlayerView {
                queue: tracks.deep_view().map_values(|t: TrackView| queue_label(t)),
                tracks: tracks.deep_view(),
                current: start_index(tracks.len() as int),
                playing: false,
            }),
            well_placed(final(self)@),
    {
        let mut queue: Vec<String> = Vec::new();
        let mut i: usize = 0;
        while i < tracks.len()
            invariant
                i <= tracks.len(),
                queue.len() == i,
                forall|j: int|
                    0 <= j < i ==> #[trigger] queue@[j]@ == queue_label(tracks@[j].deep_view()),
            decreases tracks.len() - i,
        {
            let t = &tracks[i];
            let mut label = t.artist.clone();
            label.append(" — ");
            label.append(t.title.as_str());
            queue.push(label);
            i = i + 1;
        }
        assert(queue.deep_view() =~= tracks.deep_view().map_values(|t: TrackView| queue_label(t)));
        let current_index = if queue.len() == 0 {
            None
        } else {
            Some(0)
        };
        *self = PlayerState { queue, tracks, current_index, is_playing: false };
    }

    /// The text of the current track.
    pub fn current_track(&self) -> (r: Option<&str>)
        ensures
            match r {
                Some(s) => current_text(self@) == Some(s@),
                None => current_text(self@) is None,
            },
            well_placed(self@),
    {
        proof {
            use_type_invariant(self);
        }
        match self.current_index {
            Some(i) => Some(self.queue[i].as_str()),
            None => None,
        }
    }

    /// The current track, where the queue was made from tracks.
    pub fn current_track_summary(&self) -> (r: Option<&TrackSummary>)
        ensures
            match r {
                Some(t) => current_summary(self@) == Some(t.deep_view()),
                None => current_summary(self@) is None,
            },
            well_placed(self@),
    {
        proof {
            use_type_invariant(self);
        }
        match self.current_index {
            Some(i) => if i < self.tracks.len() {
                Some(&self.tracks[i])
            } else {
                None
            },
            None => None,
        }
    }

    pub fn current_index(&self) -> (r: Option<usize>)
        ensures
            match r {
                Some(i) => self@.current == Some(i as int),
                None => self@.current is None,
            },
            well_placed(self@),
    {
        proof {
            use_type_invariant(self);
        }
        self.current_index
    }

    /// Whether the current track is the last of the queue.
    pub fn is_current_track_last(&self) -> (r: bool)
        ensures
            r == at_last(self@),
            well_placed(self@),
    {
        proof {
            use_type_invariant(self);
        }
        match self.current_index {
            Some(i) => i + 1 == self.queue.len(),
            None => false,
        }
    }

    /// Makes `index` current where the queue has it; says whether it did.
    pub fn select(&mut self, index: usize) -> (r: bool)
        ensures
            r == (index < old(self)@.queue.len()),
            final(self)@ == if r {
                PlayerView { current: Some(index as int), ..old(self)@ }
            } else {
                old(self)@
            },
            well_placed(final(self)@),
    {
        proof {
            use_type_invariant(&*self);
        }
        if index >= self.queue.len() {
            return false;
        }
        self.current_index = Some(index);
        true
    }

    /// Makes `index` current and plays, where the queue has it.
    pub fn select_and_play(&mut self, index: usize) -> (r: bool)
        ensures
            r == (index < old(self)@.queue.len()),
            final(self)@ == if r {
                PlayerView { current: Some(index as int), playing: true, ..old(self)@ }
            } else {
                old(self)@
            },
            well_placed(final(self)@),
    {
        if !self.select(index) {
            return false;
        }
        self.play();
        true
    }

    pub fn is_playing(&self) -> (r: bool)
        ensures
            r == self@.playing,
            well_placed(self@),
    {
        proof {
            use_type_invariant(self);
        }
        self.is_playing
    }

    pub fn play(&mut self)
        ensures
            final(self)@ == (PlayerView { playing: true, ..old(self)@ }),
            well_placed(final(self)@),
    {
        proof {
            use_type_invariant(&*self);
        }
        self.is_playing = true;
    }

    pub fn pause(&mut self)
        ensures
            final(self)@ == (PlayerView { playing: false, ..old(self)@ }),
            well_placed(final(self)@),
    {
        proof {
            use_type_invariant(&*self);
        }
        self.is_playing = false;
    }

    /// Carries out a player command.
    pub fn apply(&mut self, command: PlayerCommand)
        ensures
            final(self)@ == apply_view(old(self)@, command),
            well_placed(final(self)@),
    {
        proof {
            use_type_invariant(&*self);
        }
        match command {
            PlayerCommand::PlayPause => self.is_playing = !self.is_playing,
            PlayerCommand::Next => self.next(),
            PlayerCommand::Previous => self.previous(),
        }
    }

    /// Moves to the next entry, from the last back to the first.
    pub fn next(&mut self)
        ensures
            final(self)@ == next_view(old(self)@),
            well_placed(final(self)@),
    {
        proof {
            use_type_invariant(&*self);
        }
        let len: usize = self.queue.len();
        if len == 0 {
            self.current_index = None;
            return;
        }
        let next = match self.current_index {
            Some(i) => (i + 1) % len,
            None => 0,
        };
        self.current_index = Some(next);
    }

    /// Moves to the previous entry, from the first back to the last.
    pub fn previous(&mut self)
        ensures
            final(self)@ == previous_view(old(self)@),
            well_placed(final(self)@),
    {
        proof {
            use_type_invariant(&*self);
        }
        let len: usize = self.queue.len();
        if len == 0 {
            self.current_index = None;
            return;
        }
        let previous = match self.current_index {
            Some(i) => {
                assert((i + len - 1) % (len as int) == if i == 0 {
                    len - 1
                } else {
                    i - 1
                }) by (nonlinear_arith)
                    requires
                        i < len,
                ;
                if i == 0 {
                    len - 1
                } else {
                    i - 1
                }
            },
            None => 0,
        };
        self.current_index = Some(previous);
    }
}

/// The command a key stands for, with no Ctrl or Command held.
pub open spec fn shortcut_command(key: Seq<char>, ctrl: bool, command: bool) -> Option<PlayerCommand> {
    if ctrl || command {
        None
    } else if key == "Space"@ {
        Some(PlayerCommand::PlayPause)
    } else if key == "ArrowRight"@ {
        Some(PlayerCommand::Next)
    } else if key == "ArrowLeft"@ {
        Some(PlayerCommand::Previous)
    } else {
        None
    }
}

/// The player keys of the window.
pub struct Shortcut;

impl Shortcut {
    pub fn from_key(key: &str, ctrl: bool, command: bool) -> (r: Option<PlayerCommand>)
        ensures
            r == shortcut_command(key@, ctrl, command),
    {
        if ctrl || command {
            return None;
        }
        if str_equal(key, "Space") {
            Some(PlayerCommand::PlayPause)
        } else if str_equal(key, "ArrowRight") {
            Some(PlayerCommand::Next)
        } else if str_equal(key, "ArrowLeft") {
            Some(PlayerCommand::Previous)
        } else {
            None
        }
    }
}

} // verus!

verus! {

/// Moving back after moving forward returns to the same track, wherever a
/// track is current.
pub proof fn previous_undoes_next(v: PlayerView)
    requires
        well_placed(v),
        v.current is Some,
    ensures
        previous_view(next_view(v)) == v,
{
    let len = v.queue.len() as int;
    let i = v.current->0;
    assert(((i + 1) % len + len - 1) % len == i) by (nonlinear_arith)
        requires
            0 <= i < len,
    ;
}

/// Moving forward after moving back returns to the same track, wherever a
/// track is current.
pub proof fn next_undoes_previous(v: PlayerView)
    requires
        well_placed(v),
        v.current is Some,
    ensures
        next_view(previous_view(v)) == v,
{
    let len = v.queue.len() as int;
    let i = v.current->0;
    assert(((i + len - 1) % len + 1) % len == i) by (nonlinear_arith)
        requires
            0 <= i < len,
    ;
}

/// The state after `k` moves forward.
pub open spec fn after_nexts(v: PlayerView, k: nat) -> PlayerView
    decreases k,
{
    if k == 0 {
        v
    } else {
        next_view(after_nexts(v, (k - 1) as nat))
    }
}

/// `k` moves forward advance the current position by `k`, modulo the
/// queue's length, and change nothing else.
pub proof fn nexts_advance(v: PlayerView, k: nat)
    requires
        well_placed(v),
        v.current is Some,
    ensures
        after_nexts(v, k) == (PlayerView {
            current: Some((v.current->0 + k) % (v.queue.len() as int)),
            ..v
        }),
    decreases k,
{
    let len = v.queue.len() as int;
    let i = v.current->0;
    if k == 0 {
        assert(i % len == i) by (nonlinear_arith)
            requires
                0 <= i < len,
        ;
    } else {
        nexts_advance(v, (k - 1) as nat);
        assert(((i + (k - 1)) % len + 1) % len == (i + k) % len) by (nonlinear_arith)
            requires
                0 <= i < len,
                k >= 1,
        ;
    }
}

/// As many moves forward as the queue has entries come back to the same track.
pub proof fn nexts_wrap_around(v: PlayerView)
    requires
        well_placed(v),
        v.current is Some,
    ensures
        after_nexts(v, v.queue.len()) == v,
{
    let len = v.queue.len() as int;
    let i = v.current->0;
    nexts_advance(v, v.queue.len());
    assert((i + len) % len == i) by (nonlinear_arith)
        requires
            0 <= i < len,
    ;
}

/// Play/pause twice leaves the state as it was.
pub proof fn play_pause_twice_restores(v: PlayerView)
    ensures
        apply_view(apply_view(v, PlayerCommand::PlayPause), PlayerCommand::PlayPause) == v,
{
}

/// Toggling the mode twice gives the mode back.
pub proof fn toggle_twice_restores(m: PlaybackMode)
    ensures
        toggled(toggled(m)) == m,
{
}

/// Every player command keeps the current position inside the queue.
pub proof fn commands_keep_placement(v: PlayerView, c: PlayerCommand)
    requires
        well_placed(v),
    ensures
        well_placed(apply_view(v, c)),
{
    let len = v.queue.len() as int;
    if let Some(i) = v.current {
        if len > 0 {
            assert(0 <= (i + 1) % len < len) by (nonlinear_arith)
                requires
                    len > 0,
            ;
            assert(0 <= (i + len - 1) % len < len) by (nonlinear_arith)
                requires
                    len > 0,
            ;
        }
    }
}

/// A state has no current track exactly when its queue is empty, and it
/// has a current text exactly when it has a current position.
pub proof fn no_current_exactly_when_empty(v: PlayerView)
    requires
        well_placed(v),
    ensures
        v.current is None <==> v.queue.len() == 0,
        current_text(v) is Some <==> v.current is Some,
        at_last(v) ==> v.queue.len() > 0 && v.current == Some(v.queue.len() - 1),
{
}

/// A queue made from text alone never gives a current track summary.
pub proof fn text_queue_has_no_summary(v: PlayerView)
    requires
        well_placed(v),
        v.tracks.len() == 0,
    ensures
        current_summary(v) is None,
{
}

/// A queue made from tracks gives the track at the current position.
pub proof fn track_queue_gives_current_track(v: PlayerView)
    requires
        well_placed(v),
        v.tracks.len() > 0,
    ensures
        current_summary(v) == match v.current {
            Some(i) => Some(v.tracks[i]),
            None => None,
        },
{
}

/// No player command changes the queue's entries or its tracks.
pub proof fn commands_keep_queue(v: PlayerView, c: PlayerCommand)
    ensures
        apply_view(v, c).queue == v.queue,
        apply_view(v, c).tracks == v.tracks,
{
}

/// A call on the queue that keeps its entries: choosing a position,
/// choosing one and playing, playing, pausing, or a player command.
pub enum QueueCall {
    Select(usize),
    SelectAndPlay(usize),
    Play,
    Pause,
    Command(PlayerCommand),
}

/// The state after a call, as the methods of the same names leave it.
pub open spec fn call_view(v: PlayerView, c: QueueCall) -> PlayerView {
    match c {
        QueueCall::Select(i) => if i < v.queue.len() {
            PlayerView { current: Some(i as int), ..v }
        } else {
            v
        },
        QueueCall::SelectAndPlay(i) => if i < v.queue.len() {
            PlayerView { current: Some(i as int), playing: true, ..v }
        } else {
            v
        },
        QueueCall::Play => PlayerView { playing: true, ..v },
        QueueCall::Pause => PlayerView { playing: false, ..v },
        QueueCall::Command(command) => apply_view(v, command),
    }
}

/// The state after the calls, in order.
pub open spec fn after_calls(v: PlayerView, calls: Seq<QueueCall>) -> PlayerView
    decreases calls.len(),
{
    if calls.len() == 0 {
        v
    } else {
        call_view(after_calls(v, calls.drop_last()), calls.last())
    }
}

/// Whatever calls follow the making of a queue, its entries and tracks stay;
/// a queue made from text (by `set_queue`) never gives a current track
/// summary, and one made from tracks (by `set_tracks`) gives the track at
/// the current position.
pub proof fn summary_after_calls(v: PlayerView, calls: Seq<QueueCall>)
    requires
        well_placed(v),
    ensures
        well_placed(after_calls(v, calls)),
        after_calls(v, calls).queue == v.queue,
        after_calls(v, calls).tracks == v.tracks,
        v.tracks.len() == 0 ==> current_summary(after_calls(v, calls)) is None,
        v.tracks.len() > 0 ==> current_summary(after_calls(v, calls)) == match after_calls(
            v,
            calls,
        ).current {
            Some(i) => Some(v.tracks[i]),
            None => None,
        },
    decreases calls.len(),
{
    if calls.len() > 0 {
        summary_after_calls(v, calls.drop_last());
        let w = after_calls(v, calls.drop_last());
        match calls.last() {
            QueueCall::Command(command) => commands_keep_placement(w, command),
            _ => {},
        }
    }
}

} // verus!
