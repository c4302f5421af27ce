//! The decisions of the command-line interface: what a user action does to
//! the selected device and which scene it leads to, and how the device list
//! moves its selection on a key and keeps it when the list changes.
use vstd::prelude::*;
use crate::address::SocketAddress;
use crate::scene::SceneEvent;

verus! {

/// The scenes of the interface.
#[derive(Clone, Copy, Debug, PartialEq, Eq, Structural, Hash)]
pub enum SceneId {
    Connect,
    Device,
    List,
}

/// What a scene asks the interface state to do.
#[derive(Clone, Copy, Debug, PartialEq, Eq, Structural)]
pub enum Action {
    Connect(u16),
    SelectDevice(SocketAddress),
    DeselectDevice,
}

/// The outcome of an action: the scene event it leads to, and whether the
/// selected device is to be connected first.
#[derive(Clone, Copy, Debug)]
pub struct Invocation {
    pub event: SceneEvent<SceneId>,
    pub connect: bool,
}

/// The selected device after `action`, and its outcome. `device_found` says
/// whether the selected device is in the device map.
pub open spec fn invoked(current: Option<SocketAddress>, action: Action, device_found: bool) -> (
    Option<SocketAddress>,
    Invocation,
) {
    match action {
        Action::Connect(_) => if device_found {
            (current, Invocation { event: SceneEvent::NoAction, connect: true })
        } else {
            (current, Invocation { event: SceneEvent::Pop, connect: false })
        },
        Action::SelectDevice(id) => (
            Some(id),
            Invocation { event: SceneEvent::Switch(SceneId::Device), connect: false },
        ),
        Action::DeselectDevice => (
            None,
            Invocation { event: SceneEvent::Switch(SceneId::List), connect: false },
        ),
    }
}

/// Carries out `action` on the selected device id and returns its outcome:
/// connecting stays where it is when the selected device is found and leaves
/// the scene otherwise; selecting a device shows it; deselecting shows the
/// list.
pub fn invoke(current_device_id: &mut Option<SocketAddress>, action: Action, device_found: bool) -> (r: Invocation)
    ensures
        (*final(current_device_id), r) == invoked(*old(current_device_id), action, device_found),
{
    match action {
        Action::Connect(_) => {
            if device_found {
                Invocation { event: SceneEvent::NoAction, connect: true }
            } else {
                Invocation { event: SceneEvent::Pop, connect: false }
            }
        },
        Action::SelectDevice(id) => {
            *current_device_id = Some(id);
            Invocation { event: SceneEvent::Switch(SceneId::Device), connect: false }
        },
        Action::DeselectDevice => {
            *current_device_id = None;
            Invocation { event: SceneEvent::Switch(SceneId::List), connect: false }
        },
    }
}

// - - - - - - - - - - - - - - - - - - - - - - - - - - - - - - - - Device list

/// A key the device list reacts to.
#[derive(Clone, Copy, Debug, PartialEq, Eq, Structural)]
pub enum ListKey {
    Up,
    Down,
    Enter,
    Other,
}

/// What a key does to the device list: whether it was handled, the row
/// selected after it, and the action it sends.
#[derive(Clone, Copy, Debug)]
pub struct ListKeyOutcome {
    pub handled: bool,
    pub selected: Option<usize>,
    pub action: Option<Action>,
}

/// The row one step up or down from `selected`, wrapping around `count`
/// rows; a step up from the first row stays there.
pub open spec fn stepped(selected: usize, count: usize, up: bool) -> int
    recommends
        count > 0,
{
    let moved: int = if up {
        if selected > 0 {
            selected - 1
        } else {
            0
        }
    } else if selected < usize::MAX {
        selected + 1
    } else {
        usize::MAX as int
    };
    moved % (count as int)
}

/// The outcome of `key` on a device list with `selected` row, `count`
/// devices in the map, and the addresses shown in `rows`.
pub open spec fn list_key(key: ListKey, selected: Option<usize>, count: usize, rows: Seq<SocketAddress>) -> ListKeyOutcome {
    match key {
        ListKey::Up | ListKey::Down => ListKeyOutcome {
            handled: true,
            selected: match selected {
                Some(i) => if count > 0 {
                    Some(stepped(i, count, key == ListKey::Up) as usize)
                } else {
                    selected
                },
                None => None,
            },
            action: None,
        },
        ListKey::Enter => match selected {
            Some(i) => if i < rows.len() {
                ListKeyOutcome {
                    handled: true,
                    selected,
                    action: Some(Action::SelectDevice(rows[i as int])),
                }
            } else {
                ListKeyOutcome { handled: false, selected, action: None }
            },
            None => ListKeyOutcome { handled: false, selected, action: None },
        },
        ListKey::Other => ListKeyOutcome { handled: false, selected, action: None },
    }
}

/// Handles a key on the device list: up and down move the selection, wrapping
/// around the devices in the map; enter selects the device on the selected
/// row; other keys are left to the scenes below.
pub fn on_list_key(key: ListKey, selected: Option<usize>, devices_count: usize, rows: &[SocketAddress]) -> (r: ListKeyOutcome)
    ensures
        r == list_key(key, selected, devices_count, rows@),
{
    match key {
        ListKey::Up | ListKey::Down => {
            let mut next = selected;
            if devices_count > 0 {
                if let Some(i) = selected {
                    let moved = if key == ListKey::Up {
                        i.saturating_sub(1)
                    } else {
                        i.saturating_add(1)
                    };
                    next = Some(moved % devices_count);
                }
            }
            ListKeyOutcome { handled: true, selected: next, action: None }
        },
        ListKey::Enter => {
            if let Some(i) = selected {
                if i < rows.len() {
                    return ListKeyOutcome {
                        handled: true,
                        selected,
                        action: Some(Action::SelectDevice(rows[i])),
                    };
                }
            }
            ListKeyOutcome { handled: false, selected, action: None }
        },
        ListKey::Other => ListKeyOutcome { handled: false, selected, action: None },
    }
}

/// No address occurs twice in `rows`.
pub open spec fn distinct(rows: Seq<SocketAddress>) -> bool {
    forall|i: int, j: int| 0 <= i < rows.len() && 0 <= j < rows.len() && i != j ==> rows[i] != rows[j]
}

/// The row selected once the list of `old_rows` is replaced by `new_rows`:
/// none when the new list is empty; the first row when nothing was selected;
/// the row of the device that was selected when it is still listed;
/// otherwise the same row number, held to the number of rows.
pub open spec fn reselected(previous: Option<usize>, old_rows: Seq<SocketAddress>, new_rows: Seq<SocketAddress>) -> Option<usize> {
    if new_rows.len() == 0 {
        None
    } else {
        match previous {
            None => Some(0),
            Some(p) => if p < old_rows.len() && new_rows.contains(old_rows[p as int]) {
                Some(new_rows.index_of(old_rows[p as int]) as usize)
            } else if p < new_rows.len() {
                Some(p)
            } else {
                Some(new_rows.len() as usize)
            },
        }
    }
}

/// Keeps the selection of the device list when its rows are replaced: the
/// selected device keeps its selection at its new row.
pub fn reselect(previous: Option<usize>, old_rows: &[SocketAddress], new_rows: &[SocketAddress]) -> (r: Option<usize>)
    requires
        distinct(new_rows@),
    ensures
        r == reselected(previous, old_rows@, new_rows@),
{
    if new_rows.len() == 0 {
        return None;
    }
    match previous {
        None => Some(0),
        Some(p) => {
            if p < old_rows.len() {
                let target = old_rows[p];
                let mut k: usize = 0;
                while k < new_rows.len()
                    invariant
                        k <= new_rows@.len(),
                        new_rows@.len() > 0,
                        previous == Some(p),
                        p < old_rows@.len(),
                        distinct(new_rows@),
                        target == old_rows@[p as int],
                        forall|j: int| 0 <= j < k ==> new_rows@[j] != target,
                    decreases new_rows@.len() - k,
                {
                    if new_rows[k] == target {
                        proof {
                            assert(new_rows@.contains(target));
                            let idx = new_rows@.index_of(target);
                            assert(new_rows@[idx] == target);
                            assert(idx == k as int);
                        }
                        return Some(k);
                    }
                    k = k + 1;
                }
                assert(!new_rows@.contains(target));
            }
            if p < new_rows.len() {
                Some(p)
            } else {
                Some(new_rows.len())
            }
        },
    }
}

// - - - - - - - - - - - - - - - - - - - - - - - - - - - - - - - Device status

/// What the device list shows of a device.
#[derive(Clone, Copy, Debug, PartialEq, Eq, Structural)]
pub enum DeviceStatus {
    Disconnected,
    Connected,
    Playing,
}

/// The status of a device that has a client (`has_client`) and perhaps a
/// generator, running or not (`generator`): a device with either is
/// connected, and playing when its generator runs.
pub open spec fn status_of(has_client: bool, generator: Option<bool>) -> DeviceStatus {
    if has_client || generator is Some {
        if generator == Some(true) {
            DeviceStatus::Playing
        } else {
            DeviceStatus::Connected
        }
    } else {
        DeviceStatus::Disconnected
    }
}

/// Returns the status the device list shows.
pub fn device_status(has_client: bool, generator: Option<bool>) -> (s: DeviceStatus)
    ensures
        s == status_of(has_client, generator),
{
    let connected = has_client || generator.is_some();
    if connected {
        match generator {
            Some(true) => DeviceStatus::Playing,
            _ => DeviceStatus::Connected,
        }
    } else {
        DeviceStatus::Disconnected
    }
}

impl DeviceStatus {
    /// The label the device list shows.
    pub fn label(&self) -> (l: &'static str)
        ensures
            l@ == (match *self {
                DeviceStatus::Disconnected => "Disconnected"@,
                DeviceStatus::Connected => "Connected"@,
                DeviceStatus::Playing => "Playing"@,
            }),
    {
        match self {
            DeviceStatus::Disconnected => "Disconnected",
            DeviceStatus::Connected => "Connected",
            DeviceStatus::Playing => "Playing",
        }
    }
}

// - - - - - - - - - - - - - - - - - - - - - - - - - - - - - - - - Port input

/// The value of a string of ASCII decimal digits, most significant first.
pub open spec fn digits_value(s: Seq<char>) -> nat
    decreases s.len(),
{
    if s.len() == 0 {
        0
    } else {
        digits_value(s.drop_last()) * 10 + ((s.last() as nat) - ('0' as nat)) as nat
    }
}

/// Every character of `s` is an ASCII decimal digit.
pub open spec fn all_digits(s: Seq<char>) -> bool {
    forall|i: int| 0 <= i < s.len() ==> '0' <= #[trigger] s[i] <= '9'
}

/// The port a text names, as `u16`'s `from_str` reads it: an optional `+`,
/// then one or more decimal digits whose value fits in 16 bits.
pub open spec fn port_of(text: Seq<char>) -> Option<u16> {
    let digits = if text.len() > 0 && text[0] == '+' {
        text.drop_first()
    } else {
        text
    };
    if digits.len() > 0 && all_digits(digits) && digits_value(digits) <= u16::MAX {
        Some(digits_value(digits) as u16)
    } else {
        None
    }
}

/// Reads the port a text names, or `None` when it names none.
pub fn parse_port(text: &str) -> (r: Option<u16>)
    ensures
        r == port_of(text@),
{
    let n = text.unicode_len();
    let mut i: usize = 0;
    if n > 0 && text.get_char(0) == '+' {
        i = 1;
    }
    let start = i;
    let ghost digits = text@.subrange(start as int, n as int);
    proof {
        if n > 0 && text@[0] == '+' {
            assert(digits =~= text@.drop_first());
        } else {
            assert(digits =~= text@);
        }
    }
    if i == n {
        return None;
    }
    let mut value: u32 = 0;
    while i < n
        invariant
            start <= i <= n,
            n == text@.len(),
            digits == text@.subrange(start as int, n as int),
            digits == (if text@.len() > 0 && text@[0] == '+' {
                text@.drop_first()
            } else {
                text@
            }),
            digits.len() > 0,
            all_digits(text@.subrange(start as int, i as int)),
            value == digits_value(text@.subrange(start as int, i as int)),
            value <= u16::MAX,
        decreases n - i,
    {
        let c = text.get_char(i);
        let ghost before = text@.subrange(start as int, i as int);
        let ghost after = text@.subrange(start as int, i + 1);
        proof {
            assert(after.drop_last() =~= before);
            assert(after.last() == c);
        }
        if c < '0' || c > '9' {
            proof {
                assert(digits[i - start] == c);
                assert(!all_digits(digits));
            }
            return None;
        }
        let digit = (c as u32) - ('0' as u32);
        let next = value * 10 + digit;
        if next > 65535 {
            proof {
                assert(digits.subrange(0, (i + 1 - start) as int) =~= after);
                assert(digits_value(after) == next);
                if all_digits(digits) {
                    lemma_digits_value_grows(digits, (i + 1 - start) as int);
                }
            }
            return None;
        }
        value = next;
        i = i + 1;
        proof {
            assert forall|j: int| 0 <= j < after.len() implies '0' <= #[trigger] after[j] <= '9' by {
                if j < before.len() {
                    assert(after[j] == before[j]);
                }
            }
        }
    }
    proof {
        assert(text@.subrange(start as int, n as int) =~= digits);
    }
    Some(value as u16)
}

/// The value of a prefix of a digit string never exceeds the value of the
/// whole string.
proof fn lemma_digits_value_grows(s: Seq<char>, k: int)
    requires
        0 <= k <= s.len(),
        all_digits(s),
    ensures
        digits_value(s.subrange(0, k)) <= digits_value(s),
    decreases s.len() - k,
{
    if k < s.len() {
        lemma_digits_value_grows(s, k + 1);
        let longer = s.subrange(0, k + 1);
        assert(longer.drop_last() =~= s.subrange(0, k));
        assert('0' <= longer.last() <= '9');
    } else {
        assert(s.subrange(0, k) =~= s);
    }
}

/// Whether the text of a port input names a port.
pub fn validate_port(text: &str) -> (valid: bool)
    ensures
        valid == port_of(text@) is Some,
{
    parse_port(text).is_some()
}

// - - - - - - - - - - - - - - - - - - - - - - - - - - - - - - - - - - -  Laws

/// A move up or down always lands on one of the rows.
pub proof fn law_step_stays_in_list(selected: usize, count: usize, up: bool)
    requires
        count > 0,
    ensures
        0 <= stepped(selected, count, up) < count,
{
}

/// When the rows change and the selected device is still listed, the
/// selection follows it to its new row.
pub proof fn law_selection_follows_device(p: usize, old_rows: Seq<SocketAddress>, new_rows: Seq<SocketAddress>)
    requires
        distinct(new_rows),
        new_rows.len() <= usize::MAX,
        p < old_rows.len(),
        new_rows.contains(old_rows[p as int]),
    ensures
        reselected(Some(p), old_rows, new_rows) matches Some(i) && i < new_rows.len()
            && new_rows[i as int] == old_rows[p as int],
{
    let x = old_rows[p as int];
    let idx = new_rows.index_of(x);
    assert(0 <= idx < new_rows.len() && new_rows[idx] == x);
}


/// Down moves the selection to the next device and from the last back to the
/// first; up moves it to the previous device and stays on the first; both
/// are handled and send nothing. Enter on a listed row sends the selection
/// of that row's device.
pub proof fn law_list_keys_move_one_row(i: usize, count: usize, rows: Seq<SocketAddress>)
    requires
        i < count,
    ensures
        list_key(ListKey::Down, Some(i), count, rows).selected == Some(
            if i + 1 < count { (i + 1) as usize } else { 0usize },
        ),
        list_key(ListKey::Up, Some(i), count, rows).selected == Some(
            if i > 0 { (i - 1) as usize } else { 0usize },
        ),
        list_key(ListKey::Down, Some(i), count, rows).handled,
        list_key(ListKey::Up, Some(i), count, rows).handled,
        list_key(ListKey::Down, Some(i), count, rows).action is None,
        list_key(ListKey::Up, Some(i), count, rows).action is None,
        i < rows.len() ==> list_key(ListKey::Enter, Some(i), count, rows).action == Some(
            Action::SelectDevice(rows[i as int]),
        ) && list_key(ListKey::Enter, Some(i), count, rows).handled,
        !list_key(ListKey::Other, Some(i), count, rows).handled,
{
    if i + 1 < count {
        assert((i + 1) % (count as int) == i + 1) by (nonlinear_arith)
            requires
                0 <= i + 1 < count,
        ;
    } else {
        assert((i + 1) % (count as int) == 0) by (nonlinear_arith)
            requires
                i + 1 == count,
                count > 0,
        ;
    }
    if i > 0 {
        assert((i - 1) % (count as int) == i - 1) by (nonlinear_arith)
            requires
                0 <= i - 1 < count,
        ;
    } else {
        assert(0int % (count as int) == 0) by (nonlinear_arith)
            requires
                count > 0,
        ;
    }
}

/// Selecting a device makes it the current one and shows it; deselecting
/// clears the current device and shows the list; connecting keeps the
/// current device, and connects it exactly when it is in the device map,
/// leaving the scene when it is not.
pub proof fn law_actions_select_and_connect(current: Option<SocketAddress>, id: SocketAddress, port: u16, found: bool)
    ensures
        invoked(current, Action::SelectDevice(id), found).0 == Some(id),
        invoked(current, Action::SelectDevice(id), found).1.event matches SceneEvent::Switch(SceneId::Device),
        !invoked(current, Action::SelectDevice(id), found).1.connect,
        invoked(current, Action::DeselectDevice, found).0 is None,
        invoked(current, Action::DeselectDevice, found).1.event matches SceneEvent::Switch(SceneId::List),
        !invoked(current, Action::DeselectDevice, found).1.connect,
        invoked(current, Action::Connect(port), found).0 == current,
        invoked(current, Action::Connect(port), found).1.connect == found,
        !found ==> invoked(current, Action::Connect(port), found).1.event is Pop,
{
}

/// A device with neither client nor generator is disconnected; one with
/// either is connected, and playing exactly when its generator runs.
pub proof fn law_status_follows_connection(has_client: bool, generator: Option<bool>)
    ensures
        (status_of(has_client, generator) == DeviceStatus::Disconnected) == (!has_client
            && generator is None),
        (status_of(has_client, generator) == DeviceStatus::Playing) == (generator == Some(true)),
{
}


/// The decimal digits of `n`, most significant first, without leading zeros.
pub open spec fn decimal(n: nat) -> Seq<char>
    decreases n,
{
    if n < 10 {
        seq![(48 + n) as char]
    } else {
        decimal(n / 10).push((48 + n % 10) as char)
    }
}

proof fn lemma_decimal_digits(n: nat)
    ensures
        decimal(n).len() > 0,
        all_digits(decimal(n)),
        digits_value(decimal(n)) == n,
        decimal(n)[0] != '+',
    decreases n,
{
    if n < 10 {
        let d = decimal(n);
        assert(d.last() == (48 + n) as char);
        assert(d.drop_last() =~= Seq::<char>::empty());
        assert(((48 + n) as char) as nat == 48 + n);
        assert(('0' as nat) == 48);
        assert(digits_value(Seq::<char>::empty()) == 0);
        assert(digits_value(d) == digits_value(d.drop_last()) * 10 + ((d.last() as nat) - ('0' as nat)) as nat);
    } else {
        lemma_decimal_digits(n / 10);
        let d = decimal(n);
        let c = (48 + n % 10) as char;
        assert(d.drop_last() =~= decimal(n / 10));
        assert(d.last() == c);
        assert((c as nat) == 48 + n % 10);
        assert(('0' as nat) == 48);
        assert(d[0] == decimal(n / 10)[0]);
        assert forall|i: int| 0 <= i < d.len() implies '0' <= #[trigger] d[i] <= '9' by {
            if i < d.len() - 1 {
                assert(d[i] == decimal(n / 10)[i]);
            }
        }
        assert(digits_value(d) == digits_value(decimal(n / 10)) * 10 + (n % 10));
        assert((n / 10) * 10 + n % 10 == n) by (nonlinear_arith);
    }
}

/// Every port is read back from its decimal text, with or without a `+`;
/// a text that does not start with a digit or `+` names no port, and neither
/// does the decimal text of a number past the largest port.
pub proof fn law_ports_read_back(port: u16, n: nat, text: Seq<char>)
    ensures
        port_of(decimal(port as nat)) == Some(port),
        port_of(seq!['+'] + decimal(port as nat)) == Some(port),
        n > u16::MAX ==> port_of(decimal(n)) is None,
        text.len() == 0 ==> port_of(text) is None,
        text.len() > 0 && text[0] != '+' && !('0' <= text[0] <= '9') ==> port_of(text) is None,
{
    lemma_decimal_digits(port as nat);
    lemma_decimal_digits(n);
    let d = decimal(port as nat);
    assert((seq!['+'] + d).drop_first() =~= d);
    if text.len() > 0 && text[0] != '+' && !('0' <= text[0] <= '9') {
        assert(!all_digits(text));
    }
}

} // verus!
