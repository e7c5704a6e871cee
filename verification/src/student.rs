//! The identity registry: which address is registered for which member, and
//! the worker that rebuilds it from the members' home directories.

use vstd::prelude::*;
use crate::config::StudentConfig;
use crate::error::Failure;
use crate::text::{trim, trimmed};

verus! {

/// Whether `text` is an address in the sense of the HTML5 rule for e-mail
/// input, as the `validator` crate decides it.
pub uninterp spec fn well_formed_email(text: Seq<char>) -> bool;

/// Asks `validator::validate_email`.
///
/// Trusted: the answer is a function of the text alone.
#[verifier::external_body]
pub(crate) fn validate_email(text: &str) -> (valid: bool)
    ensures
        valid == well_formed_email(text@),
{
    validator::validate_email(text)
}

/// One member of the registry.
struct Member {
    id: String,
    email: String,
}

/// The map that a list of members stands for. Of two members with one
/// identifier the later counts.
spec fn members_map(members: Seq<Member>) -> Map<Seq<char>, Seq<char>>
    decreases members.len(),
{
    if members.len() == 0 {
        Map::empty()
    } else {
        members_map(members.drop_last()).insert(members.last().id@, members.last().email@)
    }
}

/// No member of the list has the identifier: the map has no such key.
proof fn lemma_absent(members: Seq<Member>, id: Seq<char>)
    requires
        forall|i: int| 0 <= i < members.len() ==> (#[trigger] members[i]).id@ != id,
    ensures
        !members_map(members).contains_key(id),
    decreases members.len(),
{
    if members.len() > 0 {
        let rest = members.drop_last();
        assert forall|i: int| 0 <= i < rest.len() implies (#[trigger] rest[i]).id@ != id by {
            assert(rest[i] == members[i]);
        }
        lemma_absent(rest, id);
    }
}

/// The one member of the list with the identifier gives the map's value.
proof fn lemma_present(members: Seq<Member>, at: int)
    requires
        0 <= at < members.len(),
        forall|i: int| at < i < members.len() ==> (#[trigger] members[i]).id@ != members[at].id@,
    ensures
        members_map(members).contains_key(members[at].id@),
        members_map(members)[members[at].id@] == members[at].email@,
    decreases members.len(),
{
    if at < members.len() - 1 {
        let rest = members.drop_last();
        assert(rest[at] == members[at]);
        assert forall|i: int| at < i < rest.len() implies (#[trigger] rest[i]).id@
            != rest[at].id@ by {
            assert(rest[i] == members[i]);
        }
        lemma_present(rest, at);
    }
}

/// Replacing the address of one member changes the map at its identifier.
proof fn lemma_update(members: Seq<Member>, at: int, member: Member)
    requires
        0 <= at < members.len(),
        member.id@ == members[at].id@,
        forall|i: int, j: int|
            0 <= i < j < members.len() ==> (#[trigger] members[i]).id@ != (
            #[trigger] members[j]).id@,
    ensures
        members_map(members.update(at, member)) == members_map(members).insert(
            member.id@,
            member.email@,
        ),
    decreases members.len(),
{
    let changed = members.update(at, member);
    if at == members.len() - 1 {
        assert(changed.drop_last() =~= members.drop_last());
        assert(members_map(changed) =~= members_map(members).insert(member.id@, member.email@));
    } else {
        let rest = members.drop_last();
        assert forall|i: int, j: int| 0 <= i < j < rest.len() implies (#[trigger] rest[i]).id@ != (
        #[trigger] rest[j]).id@ by {
            assert(rest[i] == members[i]);
            assert(rest[j] == members[j]);
        }
        assert(rest[at] == members[at]);
        lemma_update(rest, at, member);
        assert(changed.drop_last() =~= rest.update(at, member));
        assert(changed.last() == members.last());
        assert(members.last().id@ != member.id@);
        assert(members_map(changed) =~= members_map(members).insert(member.id@, member.email@));
    }
}

/// A list of members with distinct identifiers stands for a map with as many
/// keys as it has members.
proof fn lemma_count(members: Seq<Member>)
    requires
        forall|i: int, j: int|
            0 <= i < j < members.len() ==> (#[trigger] members[i]).id@ != (
            #[trigger] members[j]).id@,
    ensures
        members_map(members).dom().finite(),
        members_map(members).dom().len() == members.len(),
    decreases members.len(),
{
    if members.len() > 0 {
        let rest = members.drop_last();
        assert forall|i: int, j: int| 0 <= i < j < rest.len() implies (#[trigger] rest[i]).id@ != (
        #[trigger] rest[j]).id@ by {
            assert(rest[i] == members[i]);
            assert(rest[j] == members[j]);
        }
        lemma_count(rest);
        assert forall|i: int| 0 <= i < rest.len() implies (#[trigger] rest[i]).id@
            != members.last().id@ by {
            assert(rest[i] == members[i]);
        }
        lemma_absent(rest, members.last().id@);
        assert(members_map(members).dom() =~= members_map(rest).dom().insert(members.last().id@));
    } else {
        assert(members_map(members).dom() =~= Set::<Seq<char>>::empty());
    }
}

/// The identity registry: for each member identifier the address registered
/// for it.
pub struct Registry {
    members: Vec<Member>,
}

impl View for Registry {
    type V = Map<Seq<char>, Seq<char>>;

    closed spec fn view(&self) -> Map<Seq<char>, Seq<char>> {
        members_map(self.members@)
    }
}

impl Registry {
    #[verifier::type_invariant]
    spec fn distinct(self) -> bool {
        forall|i: int, j: int|
            0 <= i < j < self.members@.len() ==> (#[trigger] self.members@[i]).id@ != (
            #[trigger] self.members@[j]).id@
    }

    /// The registry without members.
    pub fn new() -> (registry: Registry)
        ensures
            registry@ == Map::<Seq<char>, Seq<char>>::empty(),
    {
        Registry { members: Vec::new() }
    }

    /// The place of the member `id` in the list.
    fn position(&self, id: &String) -> (found: Option<usize>)
        ensures
            match found {
                Some(at) => at < self.members@.len() && self.members@[at as int].id@ == id@,
                None => forall|i: int|
                    0 <= i < self.members@.len() ==> (#[trigger] self.members@[i]).id@ != id@,
            },
    {
        let mut at: usize = 0;
        while at < self.members.len()
            invariant
                at <= self.members@.len(),
                forall|i: int| 0 <= i < at ==> (#[trigger] self.members@[i]).id@ != id@,
            decreases self.members@.len() - at,
        {
            if self.members[at].id == *id {
                return Some(at);
            }
            at += 1;
        }
        None
    }

    /// The address registered for `id`.
    pub fn lookup(&self, id: &str) -> (email: Option<String>)
        ensures
            match email {
                Some(address) => self@.contains_key(id@) && self@[id@] == address@,
                None => !self@.contains_key(id@),
            },
    {
        proof {
            use_type_invariant(self);
        }
        let key = String::from_str(id);
        match self.position(&key) {
            Some(at) => {
                proof {
                    lemma_present(self.members@, at as int);
                }
                Some(self.members[at].email.clone())
            },
            None => {
                proof {
                    lemma_absent(self.members@, id@);
                }
                None
            },
        }
    }

    /// How many members are registered.
    pub fn len(&self) -> (count: usize)
        ensures
            self@.dom().finite(),
            count == self@.dom().len(),
    {
        proof {
            use_type_invariant(self);
            lemma_count(self.members@);
        }
        self.members.len()
    }

    /// Registers `email` for `id`, in place of what was registered for it.
    pub fn insert(self, id: String, email: String) -> (registry: Registry)
        ensures
            registry@ == self@.insert(id@, email@),
    {
        proof {
            use_type_invariant(&self);
        }
        let found = self.position(&id);
        let ghost before = self.members@;
        let Registry { members } = self;
        let mut members = members;
        let member = Member { id, email };
        match found {
            Some(at) => {
                proof {
                    lemma_update(before, at as int, member);
                }
                members.set(at, member);
                assert forall|i: int, j: int| 0 <= i < j < members@.len() implies (
                #[trigger] members@[i]).id@ != (#[trigger] members@[j]).id@ by {
                    assert(before[i].id@ == members@[i].id@);
                    assert(before[j].id@ == members@[j].id@);
                }
            },
            None => {
                members.push(member);
                assert(members@.drop_last() =~= before);
                assert forall|i: int, j: int| 0 <= i < j < members@.len() implies (
                #[trigger] members@[i]).id@ != (#[trigger] members@[j]).id@ by {
                    if j < before.len() {
                        assert(before[i] == members@[i]);
                        assert(before[j] == members@[j]);
                    } else {
                        assert(before[i] == members@[i]);
                    }
                }
            },
        }
        Registry { members }
    }
}

/// Whether `email` is the address registered for `id`. The addresses must be
/// the same character by character.
pub fn check_student_email(registry: &Registry, id: &str, email: &str) -> (authorized: bool)
    ensures
        authorized == (registry@.contains_key(id@) && registry@[id@] == email@),
{
    match registry.lookup(id) {
        Some(registered) => registered == String::from_str(email),
        None => false,
    }
}

/// The name of the marker file in a member's home directory.
pub fn marker_file_name() -> (name: &'static str)
    ensures
        name@ == ".tenzin"@,
{
    ".tenzin"
}

/// What was found where a member's marker file should be.
pub enum MarkerFile {
    /// The directory holds no marker file.
    Missing,
    /// The marker file is there and could not be read.
    Unreadable,
    /// What the marker file holds.
    Content(String),
}

/// One child of the directory of home directories: its name, which is the
/// member identifier, and its marker file.
pub struct HomeEntry {
    pub name: String,
    pub marker: MarkerFile,
}

/// Why a home directory gives no member.
#[derive(Clone, Copy, Debug, PartialEq, Eq, Structural)]
pub enum WalkDefect {
    /// There is no marker file.
    MissingMarker,
    /// The marker file could not be read.
    UnreadableMarker,
    /// The marker file does not hold a well-formed address.
    InvalidEmail,
}

/// A home directory that was passed over, and why.
pub struct Skipped {
    pub name: String,
    pub defect: WalkDefect,
}

/// What one walk over the home directories gave: the fresh registry, and the
/// directories that were passed over.
pub struct WalkReport {
    pub registry: Registry,
    pub skipped: Vec<Skipped>,
}

/// The address that a marker file registers: its content without the
/// whitespace around it, if that is a well-formed address.
pub open spec fn marker_email(marker: MarkerFile) -> Result<Seq<char>, WalkDefect> {
    match marker {
        MarkerFile::Missing => Err(WalkDefect::MissingMarker),
        MarkerFile::Unreadable => Err(WalkDefect::UnreadableMarker),
        MarkerFile::Content(text) => if well_formed_email(trimmed(text@)) {
            Ok(trimmed(text@))
        } else {
            Err(WalkDefect::InvalidEmail)
        },
    }
}

/// The registry that the home directories `entries` give: each directory
/// whose marker registers an address is a member under its name, and no
/// other is. Of two directories with one name the later counts.
pub open spec fn registry_of(entries: Seq<HomeEntry>) -> Map<Seq<char>, Seq<char>>
    decreases entries.len(),
{
    if entries.len() == 0 {
        Map::empty()
    } else {
        let rest = registry_of(entries.drop_last());
        match marker_email(entries.last().marker) {
            Ok(email) => rest.insert(entries.last().name@, email),
            Err(_) => rest,
        }
    }
}

/// The directories among `entries` that give no member, in their order, each
/// with the reason.
pub open spec fn skipped_of(entries: Seq<HomeEntry>) -> Seq<(Seq<char>, WalkDefect)>
    decreases entries.len(),
{
    if entries.len() == 0 {
        Seq::empty()
    } else {
        let rest = skipped_of(entries.drop_last());
        match marker_email(entries.last().marker) {
            Ok(_) => rest,
            Err(defect) => rest.push((entries.last().name@, defect)),
        }
    }
}

/// The names and reasons of a list of skipped directories.
pub open spec fn skipped_view(skipped: Seq<Skipped>) -> Seq<(Seq<char>, WalkDefect)> {
    skipped.map_values(|s: Skipped| (s.name@, s.defect))
}

/// Decides on a candidate address once it has been validated.
pub fn judge_address(address: String, valid: bool) -> (outcome: Result<String, WalkDefect>)
    ensures
        valid ==> outcome == Ok::<String, WalkDefect>(address),
        !valid ==> outcome == Err::<String, WalkDefect>(WalkDefect::InvalidEmail),
{
    if valid {
        Ok(address)
    } else {
        Err(WalkDefect::InvalidEmail)
    }
}

/// Reads the address that a marker file holds: its content without the
/// whitespace around it, when that is a well-formed address.
pub fn registered_address(content: &str) -> (outcome: Result<String, WalkDefect>)
    ensures
        match outcome {
            Ok(email) => well_formed_email(trimmed(content@)) && email@ == trimmed(content@),
            Err(defect) => !well_formed_email(trimmed(content@)) && defect
                == WalkDefect::InvalidEmail,
        },
{
    let candidate = trim(content);
    let valid = validate_email(candidate.as_str());
    judge_address(candidate, valid)
}

/// Reads the address that a marker file registers.
pub fn read_marker(marker: &MarkerFile) -> (outcome: Result<String, WalkDefect>)
    ensures
        match outcome {
            Ok(email) => marker_email(*marker) == Ok::<Seq<char>, WalkDefect>(email@),
            Err(defect) => marker_email(*marker) == Err::<Seq<char>, WalkDefect>(defect),
        },
{
    match marker {
        MarkerFile::Missing => Err(WalkDefect::MissingMarker),
        MarkerFile::Unreadable => Err(WalkDefect::UnreadableMarker),
        MarkerFile::Content(text) => registered_address(text.as_str()),
    }
}

/// Builds the registry afresh from the home directories. A directory that
/// gives no member is passed over and reported; it never ends the walk. What
/// was registered before plays no part.
pub fn walk_student_dir(entries: &Vec<HomeEntry>) -> (report: WalkReport)
    ensures
        report.registry@ == registry_of(entries@),
        skipped_view(report.skipped@) == skipped_of(entries@),
{
    let mut registry = Registry::new();
    let mut skipped: Vec<Skipped> = Vec::new();
    let mut i: usize = 0;
    assert(skipped_view(skipped@) =~= skipped_of(entries@.take(0)));
    while i < entries.len()
        invariant
            i <= entries@.len(),
            registry@ == registry_of(entries@.take(i as int)),
            skipped_view(skipped@) == skipped_of(entries@.take(i as int)),
        decreases entries@.len() - i,
    {
        let entry = &entries[i];
        proof {
            let head = entries@.take(i + 1);
            assert(head.drop_last() =~= entries@.take(i as int));
            assert(head.last() == entries@[i as int]);
        }
        match read_marker(&entry.marker) {
            Ok(email) => {
                registry = registry.insert(entry.name.clone(), email);
            },
            Err(defect) => {
                let ghost before = skipped@;
                skipped.push(Skipped { name: entry.name.clone(), defect });
                assert(skipped_view(skipped@) =~= skipped_view(before).push(
                    (entry.name@, defect),
                ));
            },
        }
        i += 1;
    }
    assert(entries@.take(i as int) =~= entries@);
    WalkReport { registry, skipped }
}

/// The fresh registry holds a name exactly when some directory of that name
/// registers an address: a directory without a marker file, with one that
/// cannot be read, or with one that holds no well-formed address, adds
/// nothing.
pub proof fn lemma_registry_holds_the_registered(entries: Seq<HomeEntry>, id: Seq<char>)
    ensures
        registry_of(entries).contains_key(id) <==> exists|i: int|
            0 <= i < entries.len() && (#[trigger] entries[i]).name@ == id && marker_email(
                entries[i].marker,
            ) is Ok,
        registry_of(entries).contains_key(id) ==> exists|i: int|
            0 <= i < entries.len() && (#[trigger] entries[i]).name@ == id && marker_email(
                entries[i].marker,
            ) == Ok::<Seq<char>, WalkDefect>(registry_of(entries)[id]),
    decreases entries.len(),
{
    if entries.len() > 0 {
        let rest = entries.drop_last();
        let last = entries.last();
        lemma_registry_holds_the_registered(rest, id);
        assert forall|i: int| 0 <= i < rest.len() implies rest[i] == entries[i] by {}
        if last.name@ == id && marker_email(last.marker) is Ok {
            assert(entries[entries.len() - 1] == last);
        } else {
            if registry_of(rest).contains_key(id) {
                let i = choose|i: int|
                    0 <= i < rest.len() && (#[trigger] rest[i]).name@ == id && marker_email(
                        rest[i].marker,
                    ) == Ok::<Seq<char>, WalkDefect>(registry_of(rest)[id]);
                assert(entries[i] == rest[i]);
            }
            if exists|i: int|
                0 <= i < entries.len() && (#[trigger] entries[i]).name@ == id && marker_email(
                    entries[i].marker,
                ) is Ok {
                let i = choose|i: int|
                    0 <= i < entries.len() && (#[trigger] entries[i]).name@ == id && marker_email(
                        entries[i].marker,
                    ) is Ok;
                assert(i < rest.len());
                assert(rest[i] == entries[i]);
            }
        }
    }
}

/// Where the worker that rebuilds the registry stands.
#[derive(Clone, Copy, Debug, PartialEq, Eq, Structural)]
pub enum WalkerPhase {
    /// The first walk is under way; the service waits for it.
    Starting,
    /// The worker sleeps between two walks.
    Resting,
    /// A walk is under way.
    Walking,
    /// The worker has ended on request.
    Stopped,
    /// The first walk failed; the service cannot start.
    Failed,
}

/// What happened to what the worker asked for.
#[derive(Clone, Copy, Debug, PartialEq, Eq, Structural)]
pub enum WalkerEvent {
    /// The walk is over; `true` when the directory could be listed and the
    /// registry has been replaced.
    Walked(bool),
    /// The sleep is over.
    Waited,
}

/// What the worker asks for.
#[derive(Clone, Copy, Debug, PartialEq, Eq, Structural)]
pub enum WalkerAction {
    /// Walk the home directories and replace the registry.
    Walk,
    /// Sleep for this many seconds.
    Wait(u64),
    /// End the worker.
    Stop,
    /// Give up: the service cannot start.
    Fail(Failure),
}

/// The worker that rebuilds the registry: one walk at the start, then sleep
/// and walk in turn. A request to stop is kept in a single slot and looked at
/// once per turn, when a walk has ended.
#[derive(Clone, Copy, Debug, PartialEq, Eq, Structural)]
pub struct StudentWorker {
    pub phase: WalkerPhase,
    pub walk_duration: u64,
    pub stop_requested: bool,
}

/// What a worker in the phase `phase` is waiting to be done.
pub open spec fn pending_action(worker: StudentWorker) -> WalkerAction {
    match worker.phase {
        WalkerPhase::Starting => WalkerAction::Walk,
        WalkerPhase::Walking => WalkerAction::Walk,
        WalkerPhase::Resting => WalkerAction::Wait(worker.walk_duration),
        WalkerPhase::Stopped => WalkerAction::Stop,
        WalkerPhase::Failed => WalkerAction::Fail(Failure::FilesystemWalkError),
    }
}

/// The worker after `event`.
///
/// The first walk must succeed, or the service does not start. After it the
/// worker sleeps, walks, and looks at the stop request, in that order and
/// again; a later walk that fails is passed over. An event that the worker
/// is not waiting for changes nothing.
pub open spec fn walker_step(worker: StudentWorker, event: WalkerEvent) -> StudentWorker {
    match (worker.phase, event) {
        (WalkerPhase::Starting, WalkerEvent::Walked(true)) => StudentWorker {
            phase: WalkerPhase::Resting,
            ..worker
        },
        (WalkerPhase::Starting, WalkerEvent::Walked(false)) => StudentWorker {
            phase: WalkerPhase::Failed,
            ..worker
        },
        (WalkerPhase::Resting, WalkerEvent::Waited) => StudentWorker {
            phase: WalkerPhase::Walking,
            ..worker
        },
        (WalkerPhase::Walking, WalkerEvent::Walked(_)) => if worker.stop_requested {
            StudentWorker { phase: WalkerPhase::Stopped, ..worker }
        } else {
            StudentWorker { phase: WalkerPhase::Resting, ..worker }
        },
        _ => worker,
    }
}

/// Sets the worker up: it begins with a walk.
pub fn spin_up_student_worker(config: &StudentConfig) -> (begun: (StudentWorker, WalkerAction))
    ensures
        begun.0 == (StudentWorker {
            phase: WalkerPhase::Starting,
            walk_duration: config.walk_duration,
            stop_requested: false,
        }),
        begun.1 == WalkerAction::Walk,
{
    let worker = StudentWorker {
        phase: WalkerPhase::Starting,
        walk_duration: config.walk_duration,
        stop_requested: false,
    };
    (worker, WalkerAction::Walk)
}

/// Asks the worker to stop. The request is kept until the worker looks at
/// it; asking again changes nothing.
pub fn shutdown_student_worker(worker: &mut StudentWorker)
    ensures
        *final(worker) == (StudentWorker { stop_requested: true, ..*old(worker) }),
{
    worker.stop_requested = true;
}

impl StudentWorker {
    /// Takes what happened and says what to do next.
    pub fn advance(self, event: WalkerEvent) -> (next: (StudentWorker, WalkerAction))
        ensures
            next.0 == walker_step(self, event),
            next.1 == pending_action(next.0),
    {
        let phase = match (self.phase, event) {
            (WalkerPhase::Starting, WalkerEvent::Walked(true)) => WalkerPhase::Resting,
            (WalkerPhase::Starting, WalkerEvent::Walked(false)) => WalkerPhase::Failed,
            (WalkerPhase::Resting, WalkerEvent::Waited) => WalkerPhase::Walking,
            (WalkerPhase::Walking, WalkerEvent::Walked(_)) => if self.stop_requested {
                WalkerPhase::Stopped
            } else {
                WalkerPhase::Resting
            },
            (phase, _) => phase,
        };
        let worker = StudentWorker {
            phase,
            walk_duration: self.walk_duration,
            stop_requested: self.stop_requested,
        };
        let action = match phase {
            WalkerPhase::Starting => WalkerAction::Walk,
            WalkerPhase::Walking => WalkerAction::Walk,
            WalkerPhase::Resting => WalkerAction::Wait(self.walk_duration),
            WalkerPhase::Stopped => WalkerAction::Stop,
            WalkerPhase::Failed => WalkerAction::Fail(Failure::FilesystemWalkError),
        };
        (worker, action)
    }
}

/// The worker ends only where it looks at the stop request: when a walk that
/// was under way has ended and a stop was asked for. A walk in progress is
/// never cut short, and no sleep ends the worker.
pub proof fn lemma_walker_stops_only_after_a_walk(worker: StudentWorker, event: WalkerEvent)
    requires
        worker.phase != WalkerPhase::Stopped,
    ensures
        walker_step(worker, event).phase == WalkerPhase::Stopped <==> (worker.phase
            == WalkerPhase::Walking && event is Walked && worker.stop_requested),
        walker_step(worker, event).stop_requested == worker.stop_requested,
        walker_step(worker, event).walk_duration == worker.walk_duration,
{
}

} // verus!
