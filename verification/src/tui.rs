//! What the terminal interface works out without drawing anything: which
//! panel is active, which entry a move lands on, and which reply a
//! position in the flattened tree of replies stands for.

use crate::api::Thread;
use crate::platform::Platform;
use crate::platform::Post;
use crate::platform::ReplyThread;
use vstd::prelude::*;
use vstd::string::*;

verus! {

/// The two panels of the interface.
#[derive(Debug, Clone, Copy, PartialEq, Eq, Structural)]
pub enum Panel {
    Threads,
    Detail,
}

/// What the keyboard is used for at the moment.
#[derive(Debug, Clone, Copy, PartialEq, Eq, Structural)]
pub enum InputMode {
    Normal,
    Replying,
    Posting,
    /// Posting to all platforms at once.
    CrossPosting,
}

/// What the background tasks report to the interface.
#[derive(Debug)]
pub enum AppEvent {
    ThreadsUpdated(Vec<Thread>),
    ReplyResult(Result<(), String>),
    PostResult(Result<(), String>),
    RepliesLoaded(String, Result<Vec<crate::api::ReplyThread>, String>),
    PostsUpdated(Platform, Vec<Post>),
    PlatformReplyResult(Platform, Result<(), String>),
    PlatformPostResult(Platform, Result<(), String>),
    PlatformRepliesLoaded(Platform, String, Result<Vec<ReplyThread>, String>),
}

/// Where a move down lands in a list of `len` entries: on the next entry,
/// from the last entry and from no entry on the first. In an empty list
/// nothing moves.
pub open spec fn index_below(selected: Option<usize>, len: nat) -> Option<usize> {
    if len == 0 {
        selected
    } else {
        match selected {
            Some(i) => if i >= len - 1 {
                Some(0usize)
            } else {
                Some((i + 1) as usize)
            },
            None => Some(0usize),
        }
    }
}

/// Where a move up lands in a list of `len` entries: on the entry before,
/// from the first entry on the last, from no entry on `from_none`. In an
/// empty list nothing moves.
pub open spec fn index_above(selected: Option<usize>, len: nat, from_none: usize) -> Option<
    usize,
> {
    if len == 0 {
        selected
    } else {
        match selected {
            Some(i) => if i == 0 {
                Some((len - 1) as usize)
            } else {
                Some((i - 1) as usize)
            },
            None => Some(from_none),
        }
    }
}

/// Moves the selection in a list of `len` entries one down, around the end.
pub fn move_down(selected: Option<usize>, len: usize) -> (r: Option<usize>)
    ensures
        r == index_below(selected, len as nat),
        len > 0 && (selected matches Some(i) ==> i < len) ==> (r matches Some(j) && j < len),
{
    if len == 0 {
        return selected;
    }
    match selected {
        Some(i) => if i >= len - 1 {
            Some(0)
        } else {
            Some(i + 1)
        },
        None => Some(0),
    }
}

/// Moves the selection in the list of posts one up, around the start. With
/// nothing selected the first post is.
pub fn move_up(selected: Option<usize>, len: usize) -> (r: Option<usize>)
    ensures
        r == index_above(selected, len as nat, 0),
        len > 0 && (selected matches Some(i) ==> i < len) ==> (r matches Some(j) && j < len),
{
    if len == 0 {
        return selected;
    }
    match selected {
        Some(i) => if i == 0 {
            Some(len - 1)
        } else {
            Some(i - 1)
        },
        None => Some(0),
    }
}

/// Moves the selection among `count` replies one down, around the end.
pub fn reply_move_down(selected: Option<usize>, count: usize) -> (r: Option<usize>)
    ensures
        r == index_below(selected, count as nat),
{
    move_down(selected, count)
}

/// Moves the selection among `count` replies one up, around the start.
/// With nothing selected the last reply is.
pub fn reply_move_up(selected: Option<usize>, count: usize) -> (r: Option<usize>)
    ensures
        r == index_above(selected, count as nat, (count - 1) as usize),
{
    if count == 0 {
        return selected;
    }
    match selected {
        Some(i) => if i == 0 {
            Some(count - 1)
        } else {
            Some(i - 1)
        },
        None => Some(count - 1),
    }
}

/// What `Esc` does in the detail panel: with a reply selected the
/// selection is dropped, else the panel of posts becomes active.
pub fn deselect(reply_selection: Option<usize>, active_panel: Panel) -> (r: (Option<usize>, Panel))
    ensures
        r.0 is None,
        r.1 == if reply_selection is Some {
            active_panel
        } else {
            Panel::Threads
        },
{
    if reply_selection.is_some() {
        (None, active_panel)
    } else {
        (None, Panel::Threads)
    }
}

/// The position of the first `current` in `platforms`, or the length of
/// `platforms` where it is not among them.
pub open spec fn position_of(platforms: Seq<Platform>, current: Platform) -> int
    decreases platforms.len(),
{
    if platforms.len() == 0 || platforms[0] == current {
        0
    } else {
        1 + position_of(platforms.skip(1), current)
    }
}

/// The platform after `current` in `platforms`, around the end. With one
/// platform or none there is nothing to switch to; a platform that is not
/// in the list counts as the first.
pub open spec fn platform_after(platforms: Seq<Platform>, current: Platform) -> Platform {
    if platforms.len() <= 1 {
        current
    } else {
        let at = position_of(platforms, current);
        let here = if at < platforms.len() {
            at
        } else {
            0
        };
        if here + 1 >= platforms.len() {
            platforms[0]
        } else {
            platforms[here + 1]
        }
    }
}

/// Switches to the next platform.
pub fn toggle_platform(platforms: &Vec<Platform>, current: Platform) -> (next: Platform)
    ensures
        next == platform_after(platforms@, current),
{
    if platforms.len() <= 1 {
        return current;
    }
    let mut i: usize = 0;
    assert(platforms@.skip(0) =~= platforms@);
    while i < platforms.len() && platforms[i] != current
        invariant
            i <= platforms.len(),
            position_of(platforms@, current) == i + position_of(platforms@.skip(i as int), current),
        decreases platforms.len() - i,
    {
        assert(platforms@.skip(i as int).skip(1) =~= platforms@.skip(i + 1));
        i += 1;
    }
    let here = if i < platforms.len() {
        i
    } else {
        0
    };
    if here + 1 >= platforms.len() {
        platforms[0]
    } else {
        platforms[here + 1]
    }
}

/// The ids of all replies in a tree of replies, flattened: every reply is
/// followed by the replies to it, and then by the reply after it.
pub open spec fn flat_ids(replies: Seq<ReplyThread>) -> Seq<Seq<char>>
    decreases replies,
{
    if replies.len() == 0 {
        Seq::empty()
    } else {
        flat_ids(replies.drop_last()) + seq![replies.last().post.id@] + flat_ids(
            replies.last().replies@,
        )
    }
}

/// What the first `n` replies of a tree flatten to stands at the start of
/// what the whole tree flattens to.
pub proof fn lemma_flat_ids_prefix(replies: Seq<ReplyThread>, n: int)
    requires
        0 <= n <= replies.len(),
    ensures
        flat_ids(replies.take(n)).len() <= flat_ids(replies).len(),
        flat_ids(replies.take(n)) == flat_ids(replies).take(flat_ids(replies.take(n)).len() as int),
    decreases replies.len(),
{
    if n == replies.len() {
        assert(replies.take(n) =~= replies);
        assert(flat_ids(replies).take(flat_ids(replies).len() as int) =~= flat_ids(replies));
    } else {
        assert(replies.drop_last().take(n) =~= replies.take(n));
        lemma_flat_ids_prefix(replies.drop_last(), n);
        let short = flat_ids(replies.take(n));
        let most = flat_ids(replies.drop_last());
        assert(short =~= flat_ids(replies).take(short.len() as int));
    }
}

/// One more reply flattens to what came before, its id, and what the
/// replies to it flatten to.
proof fn lemma_flat_ids_step(replies: Seq<ReplyThread>, i: int)
    requires
        0 <= i < replies.len(),
    ensures
        flat_ids(replies.take(i + 1)) == flat_ids(replies.take(i)) + seq![replies[i].post.id@]
            + flat_ids(replies[i].replies@),
{
    assert(replies.take(i + 1).drop_last() =~= replies.take(i));
    assert(replies.take(i + 1).last() == replies[i]);
}

/// The number of replies in a tree of replies, those to replies included;
/// `usize::MAX` where there are more than that.
pub fn count_platform_replies(replies: &Vec<ReplyThread>) -> (n: usize)
    ensures
        n == if flat_ids(replies@).len() <= usize::MAX {
            flat_ids(replies@).len() as int
        } else {
            usize::MAX as int
        },
    decreases replies,
{
    let mut n: usize = 0;
    let mut i: usize = 0;
    assert(replies@.take(0) =~= Seq::<ReplyThread>::empty());
    while i < replies.len()
        invariant
            i <= replies.len(),
            n == if flat_ids(replies@.take(i as int)).len() <= usize::MAX {
                flat_ids(replies@.take(i as int)).len() as int
            } else {
                usize::MAX as int
            },
        decreases replies.len() - i,
    {
        proof {
            lemma_flat_ids_step(replies@, i as int);
            vstd::std_specs::vec::axiom_vec_index_decreases(*replies, i as int);
        }
        let inner = count_platform_replies(&replies[i].replies);
        n = n.saturating_add(1).saturating_add(inner);
        i += 1;
    }
    assert(replies@.take(replies.len() as int) =~= replies@);
    n
}

/// Looks for position `target` of the flattened tree: the id there, or,
/// where the tree is smaller, its size.
fn find_reply(replies: &Vec<ReplyThread>, target: usize) -> (r: Result<String, usize>)
    ensures
        match r {
            Ok(id) => target < flat_ids(replies@).len() && id@ == flat_ids(replies@)[target as int],
            Err(size) => size == flat_ids(replies@).len() && size <= target,
        },
    decreases replies,
{
    let mut seen: usize = 0;
    let mut i: usize = 0;
    assert(replies@.take(0) =~= Seq::<ReplyThread>::empty());
    while i < replies.len()
        invariant
            i <= replies.len(),
            seen == flat_ids(replies@.take(i as int)).len(),
            seen <= target,
        decreases replies.len() - i,
    {
        proof {
            lemma_flat_ids_step(replies@, i as int);
            lemma_flat_ids_prefix(replies@, i + 1);
            vstd::std_specs::vec::axiom_vec_index_decreases(*replies, i as int);
        }
        let ghost upto = flat_ids(replies@.take(i + 1));
        if seen == target {
            assert(upto[target as int] == replies@[i as int].post.id@);
            return Ok(replies[i].post.id.clone());
        }
        match find_reply(&replies[i].replies, target - seen - 1) {
            Ok(id) => {
                assert(upto[target as int] == flat_ids(replies@[i as int].replies@)[target - seen
                    - 1]);
                return Ok(id);
            },
            Err(size) => {
                seen = seen + 1 + size;
            },
        }
        i += 1;
    }
    assert(replies@.take(replies.len() as int) =~= replies@);
    Err(seen)
}

/// The id of the reply at position `target` of the flattened tree, where
/// there is one.
pub fn get_platform_reply_id_at_index(replies: &Vec<ReplyThread>, target: usize) -> (r: Option<
    String,
>)
    ensures
        match r {
            Some(id) => target < flat_ids(replies@).len() && id@ == flat_ids(replies@)[target as int],
            None => flat_ids(replies@).len() <= target,
        },
{
    match find_reply(replies, target) {
        Ok(id) => Some(id),
        Err(_) => None,
    }
}

} // verus!
