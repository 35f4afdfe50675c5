use vstd::prelude::*;
use vstd::utf8::*;
use vstd::string::StringSliceAdditionalSpecFns;
use crate::decimal::{decimal_i32, signed_decimal};
use crate::text::utf8_len;

verus! {

/// Longest map name shown in the status line, in bytes of UTF-8.
pub const MAP_NAME_BYTES: usize = 14;

/// One row of the game-server table: server kind, players on it, player
/// slots, and the current map.
pub struct ServerData {
    pub id: i32,
    pub players: i32,
    pub slots: i32,
    pub map: String,
}

/// Short name of a server kind: `UNK`, `ZS` or `TTT`.
pub open spec fn server_kind_name(id: int) -> Seq<char> {
    if id == 0 {
        seq!['U', 'N', 'K']
    } else if id == 1 {
        seq!['Z', 'S']
    } else {
        seq!['T', 'T', 'T']
    }
}

/// Whether a map name can be cut to [`MAP_NAME_BYTES`] bytes without splitting
/// a character.
pub open spec fn map_name_cuttable(map: Seq<char>) -> bool {
    encode_utf8(map).len() <= MAP_NAME_BYTES || is_char_boundary(encode_utf8(map), MAP_NAME_BYTES as int)
}

/// A map name cut to its first [`MAP_NAME_BYTES`] bytes.
pub open spec fn shortened_map_name(map: Seq<char>) -> Seq<char> {
    if encode_utf8(map).len() <= MAP_NAME_BYTES {
        map
    } else {
        decode_utf8(encode_utf8(map).subrange(0, MAP_NAME_BYTES as int))
    }
}

/// Whether a row can be shown: its kind has a name and its map name can be cut.
pub open spec fn server_showable(id: int, map: Seq<char>) -> bool {
    0 <= id < 3 && map_name_cuttable(map)
}

/// The status line of a server: `KIND|map|players/slots`.
pub open spec fn status_line(id: int, map: Seq<char>, players: int, slots: int) -> Seq<char> {
    server_kind_name(id) + seq!['|'] + shortened_map_name(map) + seq!['|'] + signed_decimal(players)
        + seq!['/'] + signed_decimal(slots)
}

fn server_kind_str(id: i32) -> (s: &'static str)
    requires
        0 <= id < 3,
    ensures
        s@ == server_kind_name(id as int),
{
    if id == 0 {
        proof { reveal_strlit("UNK"); }
        "UNK"
    } else if id == 1 {
        proof { reveal_strlit("ZS"); }
        "ZS"
    } else {
        proof { reveal_strlit("TTT"); }
        "TTT"
    }
}

/// The map name cut to its first [`MAP_NAME_BYTES`] bytes.
pub fn shorten_map_name(map: &str) -> (r: String)
    requires
        map_name_cuttable(map@),
    ensures
        r@ == shortened_map_name(map@),
{
    if utf8_len(map) <= MAP_NAME_BYTES {
        map.to_owned()
    } else {
        let (head, _tail) = map.split_at(MAP_NAME_BYTES);
        proof {
            broadcast use group_utf8_lib;
            assert(decode_utf8(encode_utf8(head@)) == head@);
            assert(head.spec_bytes() =~= encode_utf8(map@).subrange(0, MAP_NAME_BYTES as int));
            assert(head.spec_bytes() == encode_utf8(head@));
            assert(shortened_map_name(map@) == head@);
        }
        head.to_owned()
    }
}

/// The status line shown for one server.
pub fn server_status(data: &ServerData) -> (r: String)
    requires
        server_showable(data.id as int, data.map@),
    ensures
        r@ == status_line(data.id as int, data.map@, data.players as int, data.slots as int),
{
    let mut line = String::from_str(server_kind_str(data.id));
    proof { reveal_strlit("|"); reveal_strlit("/"); }
    line.append("|");
    let map = shorten_map_name(data.map.as_str());
    line.append(map.as_str());
    line.append("|");
    let players = decimal_i32(data.players);
    line.append(players.as_str());
    line.append("/");
    let slots = decimal_i32(data.slots);
    line.append(slots.as_str());
    line
}

/// The status line for the server at `last`, and the position of the server
/// to show next: the one after it, or the first after the last one.
pub fn rotate_status(servers: &Vec<ServerData>, last: usize) -> (r: (String, usize))
    requires
        last < servers@.len(),
        server_showable(servers@[last as int].id as int, servers@[last as int].map@),
    ensures
        r.0@ == status_line(
            servers@[last as int].id as int,
            servers@[last as int].map@,
            servers@[last as int].players as int,
            servers@[last as int].slots as int,
        ),
        r.1 == (last + 1) % (servers@.len() as int),
{
    let line = server_status(&servers[last]);
    let count = servers.len();
    let mut next = last + 1;
    if next == count {
        next = 0;
        assert((last + 1) % (count as int) == 0) by (nonlinear_arith)
            requires
                last + 1 == count,
                count > 0;
    } else {
        assert((last + 1) % (count as int) == last + 1) by (nonlinear_arith)
            requires
                last + 1 < count;
    }
    (line, next)
}

/// The position shown after `k` rotations that began at `start` among `count`
/// servers, each rotation moving as [`rotate_status`] does.
pub open spec fn rotated(start: int, count: int, k: nat) -> int
    decreases k,
{
    if k == 0 {
        start
    } else {
        (rotated(start, count, (k - 1) as nat) + 1) % count
    }
}

proof fn lemma_mod_below_twice(x: int, n: int)
    requires
        0 < n,
        0 <= x < 2 * n,
    ensures
        x % n == (if x < n { x } else { x - n }),
{
    if x < n {
        assert(x % n == x) by (nonlinear_arith)
            requires
                0 <= x < n;
    } else {
        assert(x % n == x - n) by (nonlinear_arith)
            requires
                n <= x < 2 * n;
    }
}

/// After `k` rotations from `start` the status shows server
/// `(start + k) mod count`.
pub proof fn law_rotation_position(start: int, count: int, k: nat)
    requires
        0 <= start < count,
    ensures
        rotated(start, count, k) == (start + k) % count,
    decreases k,
{
    if k == 0 {
        lemma_mod_below_twice(start, count);
    } else {
        law_rotation_position(start, count, (k - 1) as nat);
        let x = start + k - 1;
        assert(0 <= x % count < count) by (nonlinear_arith)
            requires
                0 < count,
                0 <= x;
        lemma_mod_below_twice(x % count + 1, count);
        vstd::arithmetic::div_mod::lemma_add_mod_noop(x, 1, count);
        if count == 1 {
            assert((x + 1) % count == 0) by (nonlinear_arith)
                requires
                    count == 1;
        } else {
            lemma_mod_below_twice(1, count);
        }
    }
}

/// Over `count` rotations the status shows every server exactly once, then
/// comes back to where it began.
pub proof fn law_rotation_cycle(start: int, count: int)
    requires
        0 <= start < count,
    ensures
        rotated(start, count, count as nat) == start,
        forall|i: nat, j: nat|
            i < j < count ==> #[trigger] rotated(start, count, i) != #[trigger] rotated(start, count, j),
        forall|i: nat| i < count ==> 0 <= #[trigger] rotated(start, count, i) < count,
{
    law_rotation_position(start, count, count as nat);
    lemma_mod_below_twice(start + count, count);
    assert forall|i: nat, j: nat| i < j < count implies #[trigger] rotated(start, count, i) != #[trigger] rotated(
        start,
        count,
        j,
    ) by {
        law_rotation_position(start, count, i);
        law_rotation_position(start, count, j);
        lemma_mod_below_twice(start + i, count);
        lemma_mod_below_twice(start + j, count);
    }
    assert forall|i: nat| i < count implies 0 <= #[trigger] rotated(start, count, i) < count by {
        law_rotation_position(start, count, i);
        lemma_mod_below_twice(start + i, count);
    }
}

} // verus!
