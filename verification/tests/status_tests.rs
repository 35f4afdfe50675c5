use gexbot::status::{rotate_status, server_status, shorten_map_name, ServerData};

fn server(id: i32, players: i32, slots: i32, map: &str) -> ServerData {
    ServerData { id, players, slots, map: map.to_string() }
}

#[test]
fn status_line_formats_each_kind() {
    assert_eq!(server_status(&server(0, 0, 16, "gm_flatgrass")), "UNK|gm_flatgrass|0/16");
    assert_eq!(server_status(&server(1, 12, 32, "zs_obj_dump")), "ZS|zs_obj_dump|12/32");
    assert_eq!(server_status(&server(2, -1, 24, "ttt_minecraft")), "TTT|ttt_minecraft|-1/24");
}

#[test]
fn long_map_names_are_cut_to_fourteen_bytes() {
    assert_eq!(shorten_map_name("ttt_minecraft_b5"), "ttt_minecraft_");
    assert_eq!(shorten_map_name("exactly14bytes"), "exactly14bytes");
    assert_eq!(shorten_map_name(""), "");
    assert_eq!(shorten_map_name("ab\u{e9}\u{e9}\u{e9}\u{e9}\u{e9}\u{e9}xyz"), "ab\u{e9}\u{e9}\u{e9}\u{e9}\u{e9}\u{e9}");
    assert_eq!(server_status(&server(1, 3, 8, "zs_abandoned_mall_v6")), "ZS|zs_abandoned_m|3/8");
}

#[test]
fn rotation_moves_to_next_and_wraps() {
    let servers = vec![server(0, 1, 2, "a"), server(1, 3, 4, "b"), server(2, 5, 6, "c")];
    let (line, next) = rotate_status(&servers, 0);
    assert_eq!(line, "UNK|a|1/2");
    assert_eq!(next, 1);
    let (line, next) = rotate_status(&servers, 2);
    assert_eq!(line, "TTT|c|5/6");
    assert_eq!(next, 0);
    let single = vec![server(1, 0, 0, "m")];
    assert_eq!(rotate_status(&single, 0).1, 0);
}
