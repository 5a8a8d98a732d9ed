use ndl::platform::Platform;
use ndl::platform::Post;
use ndl::platform::ReplyThread;
use ndl::tui::count_platform_replies;
use ndl::tui::deselect;
use ndl::tui::get_platform_reply_id_at_index;
use ndl::tui::move_down;
use ndl::tui::move_up;
use ndl::tui::reply_move_down;
use ndl::tui::reply_move_up;
use ndl::tui::toggle_platform;
use ndl::tui::InputMode;
use ndl::tui::Panel;

fn reply(id: &str, replies: Vec<ReplyThread>) -> ReplyThread {
    ReplyThread {
        post: Post {
            id: id.to_string(),
            text: None,
            author_handle: None,
            author_name: None,
            timestamp: None,
            permalink: None,
            platform: Platform::Bluesky,
            media_type: None,
        },
        replies,
    }
}

fn tree() -> Vec<ReplyThread> {
    vec![
        reply("a", vec![reply("a1", vec![reply("a1x", vec![])]), reply("a2", vec![])]),
        reply("b", vec![]),
        reply("c", vec![reply("c1", vec![])]),
    ]
}

#[test]
fn moving_down_wraps_around() {
    assert_eq!(move_down(None, 3), Some(0));
    assert_eq!(move_down(Some(0), 3), Some(1));
    assert_eq!(move_down(Some(1), 3), Some(2));
    assert_eq!(move_down(Some(2), 3), Some(0));
    assert_eq!(move_down(Some(9), 3), Some(0));
    assert_eq!(move_down(Some(0), 1), Some(0));
    assert_eq!(move_down(None, 0), None);
    assert_eq!(move_down(Some(4), 0), Some(4));
}

#[test]
fn moving_up_wraps_around() {
    assert_eq!(move_up(None, 3), Some(0));
    assert_eq!(move_up(Some(0), 3), Some(2));
    assert_eq!(move_up(Some(2), 3), Some(1));
    assert_eq!(move_up(Some(0), 1), Some(0));
    assert_eq!(move_up(None, 0), None);
}

#[test]
fn moving_among_replies() {
    assert_eq!(reply_move_down(None, 7), Some(0));
    assert_eq!(reply_move_down(Some(6), 7), Some(0));
    assert_eq!(reply_move_down(Some(3), 7), Some(4));
    assert_eq!(reply_move_down(Some(3), 0), Some(3));
    assert_eq!(reply_move_up(None, 7), Some(6));
    assert_eq!(reply_move_up(Some(0), 7), Some(6));
    assert_eq!(reply_move_up(Some(3), 7), Some(2));
    assert_eq!(reply_move_up(None, 0), None);
}

#[test]
fn escape_drops_the_selection_first() {
    assert_eq!(deselect(Some(2), Panel::Detail), (None, Panel::Detail));
    assert_eq!(deselect(None, Panel::Detail), (None, Panel::Threads));
    assert_eq!(deselect(None, Panel::Threads), (None, Panel::Threads));
    assert_ne!(InputMode::Normal, InputMode::CrossPosting);
}

#[test]
fn switching_platforms() {
    let both = vec![Platform::Threads, Platform::Bluesky];
    assert_eq!(toggle_platform(&both, Platform::Threads), Platform::Bluesky);
    assert_eq!(toggle_platform(&both, Platform::Bluesky), Platform::Threads);
    assert_eq!(toggle_platform(&vec![Platform::Threads], Platform::Threads), Platform::Threads);
    assert_eq!(toggle_platform(&vec![], Platform::Bluesky), Platform::Bluesky);
    let odd = vec![Platform::Bluesky, Platform::Bluesky];
    assert_eq!(toggle_platform(&odd, Platform::Threads), Platform::Bluesky);
}

#[test]
fn replies_are_counted_with_their_replies() {
    assert_eq!(count_platform_replies(&vec![]), 0);
    assert_eq!(count_platform_replies(&tree()), 7);
    assert_eq!(count_platform_replies(&vec![reply("x", vec![])]), 1);
}

#[test]
fn flattened_positions_go_depth_first() {
    let tree = tree();
    let ids: Vec<Option<String>> = (0..8).map(|i| get_platform_reply_id_at_index(&tree, i)).collect();
    let expected: Vec<Option<String>> = vec!["a", "a1", "a1x", "a2", "b", "c", "c1"]
        .into_iter()
        .map(|s| Some(s.to_string()))
        .chain(std::iter::once(None))
        .collect();
    assert_eq!(ids, expected);
    assert_eq!(get_platform_reply_id_at_index(&vec![], 0), None);
    assert_eq!(get_platform_reply_id_at_index(&tree, usize::MAX), None);
}
