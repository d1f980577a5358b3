use vstd::prelude::*;

verus! {

/// The name that the ports of a Launchpad MK2 begin with.
pub const MK2_NAME: &'static str = "Launchpad MK2";

/// The name, character by character, is "Launchpad MK2".
pub proof fn lemma_mk2_name()
    ensures
        MK2_NAME@ == seq!['L', 'a', 'u', 'n', 'c', 'h', 'p', 'a', 'd', ' ', 'M', 'K', '2'],
{
    reveal_strlit("Launchpad MK2");
    assert(MK2_NAME@ =~= seq!['L', 'a', 'u', 'n', 'c', 'h', 'p', 'a', 'd', ' ', 'M', 'K', '2']);
}

/// The port with this name belongs to a Launchpad MK2.
pub open spec fn names_launchpad(name: Seq<char>) -> bool {
    MK2_NAME@.is_prefix_of(name)
}

/// Whether the port name begins with [`MK2_NAME`].
pub fn is_launchpad_port(name: &str) -> (r: bool)
    ensures
        r == names_launchpad(name@),
{
    let mut want = MK2_NAME.chars();
    let mut have = name.chars();
    let ghost mut k: int = 0;
    loop
        invariant
            0 <= k <= MK2_NAME@.len(),
            k <= name@.len(),
            vstd::std_specs::iter::IteratorSpec::remaining(&want) == MK2_NAME@.skip(k),
            vstd::std_specs::iter::IteratorSpec::remaining(&have) == name@.skip(k),
            MK2_NAME@.take(k) == name@.take(k),
        decreases MK2_NAME@.len() - k,
    {
        match want.next() {
            None => {
                assert(MK2_NAME@.take(k) == MK2_NAME@);
                return true;
            },
            Some(c) => {
                match have.next() {
                    None => {
                        return false;
                    },
                    Some(d) => {
                        if c != d {
                            assert(MK2_NAME@[k] != name@[k]);
                            return false;
                        }
                        assert(MK2_NAME@.take(k + 1) == MK2_NAME@.take(k).push(c));
                        assert(name@.take(k + 1) == name@.take(k).push(d));
                        proof {
                            k = k + 1;
                        }
                    },
                }
            },
        }
    }
}


/// Some port of `names` names a Launchpad MK2.
pub open spec fn has_launchpad(names: Seq<String>) -> bool {
    exists|i: int| 0 <= i < names.len() && names_launchpad(#[trigger] names[i]@)
}

/// `i` is the first port of `names` that names a Launchpad MK2.
pub open spec fn is_first_launchpad(names: Seq<String>, i: int) -> bool {
    &&& 0 <= i < names.len()
    &&& names_launchpad(names[i]@)
    &&& forall|j: int| 0 <= j < i ==> !names_launchpad(#[trigger] names[j]@)
}

/// The position of the first port whose name begins with [`MK2_NAME`], if any.
pub fn find_launchpad(names: &Vec<String>) -> (r: Option<usize>)
    ensures
        match r {
            Some(i) => is_first_launchpad(names@, i as int),
            None => !has_launchpad(names@),
        },
{
    let mut i: usize = 0;
    while i < names.len()
        invariant
            0 <= i <= names@.len(),
            forall|j: int| 0 <= j < i ==> !names_launchpad(#[trigger] names@[j]@),
        decreases names@.len() - i,
    {
        if is_launchpad_port(names[i].as_str()) {
            return Some(i);
        }
        i = i + 1;
    }
    None
}

/// The input port and the output port of a Launchpad MK2 to connect to: the
/// first of each whose name begins with [`MK2_NAME`], or `None` while either
/// side has none, in which case the device is looked for again later.
pub fn pick_ports(inputs: &Vec<String>, outputs: &Vec<String>) -> (r: Option<(usize, usize)>)
    ensures
        r is Some <==> has_launchpad(inputs@) && has_launchpad(outputs@),
        r matches Some((i, o)) ==> is_first_launchpad(inputs@, i as int)
            && is_first_launchpad(outputs@, o as int),
{
    match (find_launchpad(inputs), find_launchpad(outputs)) {
        (Some(i), Some(o)) => Some((i, o)),
        _ => None,
    }
}

/// Whether a port named `name` is among `names`.
pub fn port_present(names: &Vec<String>, name: &String) -> (r: bool)
    ensures
        r == exists|i: int| 0 <= i < names@.len() && #[trigger] names@[i]@ == name@,
{
    let mut i: usize = 0;
    while i < names.len()
        invariant
            0 <= i <= names@.len(),
            forall|j: int| 0 <= j < i ==> #[trigger] names@[j]@ != name@,
        decreases names@.len() - i,
    {
        if names[i].eq(name) {
            return true;
        }
        i = i + 1;
    }
    false
}

/// What the watch on the connected device reports in a round of waiting.
#[derive(Debug, Clone, Copy, PartialEq, Eq, Structural)]
pub enum WatchEvent {
    /// The port of the device has gone.
    DeviceGone,
    /// Nothing was reported within the waiting time.
    Quiet,
    /// The watch itself stopped reporting.
    WatchLost,
}

/// What the session does next.
#[derive(Debug, Clone, Copy, PartialEq, Eq, Structural)]
pub enum SessionStep {
    /// Look for the device and connect again.
    Reconnect,
    /// Go on listening to the connected device.
    KeepListening,
    /// Say that the watch was lost, then look for the device and connect again.
    WarnAndReconnect,
}

/// The step that follows a round of waiting: the session stays with the device
/// only while nothing is reported.
pub fn next_step(event: WatchEvent) -> (r: SessionStep)
    ensures
        r == match event {
            WatchEvent::DeviceGone => SessionStep::Reconnect,
            WatchEvent::Quiet => SessionStep::KeepListening,
            WatchEvent::WatchLost => SessionStep::WarnAndReconnect,
        },
{
    match event {
        WatchEvent::DeviceGone => SessionStep::Reconnect,
        WatchEvent::Quiet => SessionStep::KeepListening,
        WatchEvent::WatchLost => SessionStep::WarnAndReconnect,
    }
}

} // verus!
