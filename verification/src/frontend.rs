//! What the front ends decide: which processes are offered for patching, in
//! which order, and how they and the outcome of a patch are put into words.

use vstd::prelude::*;
use vstd::std_specs::cmp::PartialEqSpecImpl;
use vstd::string::StringExecFns;

verus! {

/// Whether a process of the given name is a game that can be patched.
pub open spec fn is_supported(name: Seq<char>) -> bool {
    name == "eldenring.exe"@ || name == "armoredcore6.exe"@ || name == "sekiro.exe"@ || name
        == "start_protected_game.exe"@
}

/// Whether a process of the given name is a game that can be patched.
pub fn is_supported_game(name: &str) -> (supported: bool)
    ensures
        supported == is_supported(name@),
{
    let name = name.to_owned();
    name == "eldenring.exe".to_owned() || name == "armoredcore6.exe".to_owned() || name
        == "sekiro.exe".to_owned() || name == "start_protected_game.exe".to_owned()
}

/// A running process: its identifier and the name of its executable. Two
/// of them are equal when they have the same identifier.
#[derive(Debug, Clone, Eq)]
pub struct GameProcess {
    pub pid: u32,
    pub name: String,
}

impl PartialEq for GameProcess {
    fn eq(&self, other: &Self) -> (equal: bool) {
        self.pid == other.pid
    }
}

impl PartialEqSpecImpl for GameProcess {
    open spec fn obeys_eq_spec() -> bool {
        true
    }

    open spec fn eq_spec(&self, other: &Self) -> bool {
        self.pid == other.pid
    }
}

/// How many of the processes, from the first on, have an identifier that is
/// no less than `pid`, before the first that has a lesser one.
pub open spec fn leading_not_below(processes: Seq<GameProcess>, pid: u32) -> int
    decreases processes.len(),
{
    if processes.len() == 0 || processes[0].pid < pid {
        0
    } else {
        1 + leading_not_below(processes.drop_first(), pid)
    }
}

/// The games among the first `n` processes, by falling identifier; of two
/// with the same identifier the one that came first stays first.
pub open spec fn games_among(processes: Seq<GameProcess>, n: nat) -> Seq<GameProcess>
    decreases n,
{
    if n == 0 {
        Seq::empty()
    } else {
        let earlier = games_among(processes, (n - 1) as nat);
        let process = processes[n - 1];
        if is_supported(process.name@) {
            earlier.insert(leading_not_below(earlier, process.pid), process)
        } else {
            earlier
        }
    }
}

/// The identifiers fall, or stay, from each process to the next.
pub open spec fn falls(processes: Seq<GameProcess>) -> bool {
    forall|i: int, j: int|
        0 <= i < j < processes.len() ==> (#[trigger] processes[i]).pid >= (
        #[trigger] processes[j]).pid
}

/// The place at which a process of the given identifier goes into a falling
/// sequence lies inside it, behind every process that is no less and before
/// every lesser one.
pub proof fn lemma_place_of(processes: Seq<GameProcess>, pid: u32)
    requires
        falls(processes),
    ensures
        0 <= leading_not_below(processes, pid) <= processes.len(),
        forall|i: int|
            0 <= i < leading_not_below(processes, pid) ==> (#[trigger] processes[i]).pid >= pid,
        forall|i: int|
            leading_not_below(processes, pid) <= i < processes.len() ==> (
            #[trigger] processes[i]).pid < pid,
    decreases processes.len(),
{
    if processes.len() > 0 && processes[0].pid >= pid {
        let rest = processes.drop_first();
        assert forall|i: int, j: int| 0 <= i < j < rest.len() implies (#[trigger] rest[i]).pid >= (
        #[trigger] rest[j]).pid by {
            assert(rest[i] == processes[i + 1]);
            assert(rest[j] == processes[j + 1]);
        }
        lemma_place_of(rest, pid);
        let place = leading_not_below(rest, pid);
        assert forall|i: int| 0 <= i < place + 1 implies (#[trigger] processes[i]).pid >= pid by {
            if i > 0 {
                assert(rest[i - 1] == processes[i]);
            }
        }
        assert forall|i: int| place + 1 <= i < processes.len() implies (
        #[trigger] processes[i]).pid < pid by {
            assert(rest[i - 1] == processes[i]);
        }
    } else if processes.len() > 0 {
        assert forall|i: int| 0 <= i < processes.len() implies (#[trigger] processes[i]).pid
            < pid by {
            if i > 0 {
                assert(processes[0].pid >= processes[i].pid);
            }
        }
    }
}

/// The games that are offered are in falling order of their identifiers,
/// each of them is a game, and they are the games among the processes, each
/// as often as it occurs there.
pub proof fn lemma_games_among(processes: Seq<GameProcess>, n: nat)
    requires
        n <= processes.len(),
    ensures
        falls(games_among(processes, n)),
        forall|i: int|
            0 <= i < games_among(processes, n).len() ==> is_supported(
                (#[trigger] games_among(processes, n)[i]).name@,
            ),
        games_among(processes, n).to_multiset() == processes.take(n as int).filter(
            |p: GameProcess| is_supported(p.name@),
        ).to_multiset(),
    decreases n,
{
    let supported = |p: GameProcess| is_supported(p.name@);
    if n == 0 {
        assert(processes.take(0) =~= Seq::<GameProcess>::empty());
        assert(processes.take(0).filter(supported) =~= Seq::<GameProcess>::empty()) by {
            processes.take(0).lemma_filter_len(supported);
        }
    } else {
        lemma_games_among(processes, (n - 1) as nat);
        let earlier = games_among(processes, (n - 1) as nat);
        let process = processes[n - 1];
        let before = processes.take(n - 1);
        assert(processes.take(n as int) =~= before.push(process));
        Seq::lemma_filter_push(before, process, supported);
        if is_supported(process.name@) {
            lemma_place_of(earlier, process.pid);
            let place = leading_not_below(earlier, process.pid);
            let now = earlier.insert(place, process);
            assert forall|i: int, j: int| 0 <= i < j < now.len() implies (#[trigger] now[i]).pid >= (
            #[trigger] now[j]).pid by {
                if i < place {
                    assert(now[i] == earlier[i]);
                } else if i > place {
                    assert(now[i] == earlier[i - 1]);
                }
                if j < place {
                    assert(now[j] == earlier[j]);
                } else if j > place {
                    assert(now[j] == earlier[j - 1]);
                }
            }
            assert forall|i: int| 0 <= i < now.len() implies is_supported((#[trigger] now[i]).name@) by {
                if i < place {
                    assert(now[i] == earlier[i]);
                } else if i > place {
                    assert(now[i] == earlier[i - 1]);
                }
            }
            vstd::seq_lib::to_multiset_insert(earlier, place, process);
            vstd::seq_lib::to_multiset_build(before.filter(supported), process);
        }
    }
}

/// The games among the processes, the one with the greatest identifier
/// first.
pub fn get_running_games(processes: &[GameProcess]) -> (games: Vec<GameProcess>)
    ensures
        games@ == games_among(processes@, processes@.len()),
{
    let mut games: Vec<GameProcess> = Vec::new();
    let mut n: usize = 0;
    while n < processes.len()
        invariant
            n <= processes@.len(),
            games@ == games_among(processes@, n as nat),
            games@.len() <= n,
        decreases processes@.len() - n,
    {
        let process = &processes[n];
        if is_supported_game(process.name.as_str()) {
            let mut place: usize = 0;
            assert(games@.skip(0) =~= games@);
            while place < games.len() && games[place].pid >= process.pid
                invariant
                    place <= games@.len(),
                    n < processes@.len(),
                    *process == processes@[n as int],
                    games@ == games_among(processes@, n as nat),
                    games@.len() <= n,
                    place + leading_not_below(games@.skip(place as int), process.pid)
                        == leading_not_below(games@, process.pid),
                decreases games@.len() - place,
            {
                proof {
                    let rest = games@.skip(place as int);
                    assert(rest[0] == games@[place as int]);
                    assert(rest.drop_first() =~= games@.skip(place + 1));
                }
                place = place + 1;
            }
            proof {
                let rest = games@.skip(place as int);
                if place < games@.len() {
                    assert(rest[0] == games@[place as int]);
                }
            }
            games.insert(place, GameProcess { pid: process.pid, name: process.name.clone() });
        }
        n = n + 1;
    }
    games
}

/// The decimal digit for a number below ten.
pub open spec fn digit(d: int) -> Seq<char> {
    if d == 0 {
        "0"@
    } else if d == 1 {
        "1"@
    } else if d == 2 {
        "2"@
    } else if d == 3 {
        "3"@
    } else if d == 4 {
        "4"@
    } else if d == 5 {
        "5"@
    } else if d == 6 {
        "6"@
    } else if d == 7 {
        "7"@
    } else if d == 8 {
        "8"@
    } else {
        "9"@
    }
}

/// The number in decimal digits, without leading zeros.
pub open spec fn decimal(n: nat) -> Seq<char>
    decreases n,
{
    if n < 10 {
        digit(n as int)
    } else {
        decimal(n / 10) + digit((n % 10) as int)
    }
}

fn digit_text(d: u32) -> (text: &'static str)
    requires
        d < 10,
    ensures
        text@ == digit(d as int),
{
    if d == 0 {
        "0"
    } else if d == 1 {
        "1"
    } else if d == 2 {
        "2"
    } else if d == 3 {
        "3"
    } else if d == 4 {
        "4"
    } else if d == 5 {
        "5"
    } else if d == 6 {
        "6"
    } else if d == 7 {
        "7"
    } else if d == 8 {
        "8"
    } else {
        "9"
    }
}

/// The number in decimal digits, without leading zeros.
pub fn decimal_text(n: u32) -> (text: String)
    ensures
        text@ == decimal(n as nat),
    decreases n,
{
    if n < 10 {
        digit_text(n).to_owned()
    } else {
        let mut text = decimal_text(n / 10);
        text.append(digit_text(n % 10));
        text
    }
}

/// The label of a process: its name, and its identifier in brackets.
pub fn format_process_label(process: &GameProcess) -> (label: String)
    ensures
        label@ == process.name@ + " ("@ + decimal(process.pid as nat) + ")"@,
{
    let mut label = process.name.clone();
    label.append(" (");
    label.append(decimal_text(process.pid).as_str());
    label.append(")");
    label
}

/// The title of the front end, with its version.
pub fn get_project_title(version: &str) -> (title: String)
    ensures
        title@ == "FXR reloader v"@ + version@,
{
    let mut title = "FXR reloader v".to_owned();
    title.append(version);
    title
}

/// The line that goes into the log after a reload: that it was done, or
/// that it failed and why.
pub fn reload_log_entry(result: Result<(), String>) -> (entry: String)
    ensures
        entry@ == match result {
            Ok(()) => "Reloaded FXR"@,
            Err(error) => "Failed to reload FXR: "@ + error@,
        },
{
    match result {
        Ok(()) => "Reloaded FXR".to_owned(),
        Err(error) => {
            let mut entry = "Failed to reload FXR: ".to_owned();
            entry.append(error.as_str());
            entry
        },
    }
}

} // verus!
