//! The Threads API as the client sees it: the documents it answers with.

use crate::encoding::percent_encode;
use crate::encoding::percent_encoded;
use crate::platform::Platform;
use crate::platform::Post;
use crate::text::contains_text;
use crate::text::decimal;
use crate::text::decimal_text;
use crate::text::has_substring;
use crate::text::lowercased;
use crate::text::same_text;
use crate::text::to_lowercase;
use vstd::prelude::*;
use vstd::string::*;

verus! {

/// Where the Threads API lives.
pub const BASE_URL: &'static str = "https://graph.threads.net";

/// Why a call of the Threads API failed.
#[derive(Debug, Clone)]
pub enum ApiError {
    /// The request failed on the way.
    Request(String),
    /// The API refused, or answered what cannot be used.
    Api(String),
}

/// A user's profile at Threads.
#[derive(Debug, Clone)]
pub struct UserProfile {
    pub id: String,
    pub username: Option<String>,
    pub name: Option<String>,
    pub threads_profile_picture_url: Option<String>,
    pub threads_biography: Option<String>,
}

/// A post at Threads.
#[derive(Debug, Clone)]
pub struct Thread {
    pub id: String,
    pub text: Option<String>,
    pub username: Option<String>,
    pub timestamp: Option<String>,
    pub media_type: Option<String>,
    pub permalink: Option<String>,
}

/// A page of posts.
#[derive(Debug, Clone)]
pub struct ThreadsResponse {
    pub data: Vec<Thread>,
    pub paging: Option<Paging>,
}

/// Where the neighbouring pages are.
#[derive(Debug, Clone)]
pub struct Paging {
    pub cursors: Option<Cursors>,
    pub next: Option<String>,
    pub previous: Option<String>,
}

/// The cursors of a page.
#[derive(Debug, Clone)]
pub struct Cursors {
    pub before: Option<String>,
    pub after: Option<String>,
}

/// A container made for a post that is to be published.
#[derive(Debug, Clone)]
pub struct ContainerResponse {
    pub id: String,
}

/// A reply with the replies to it.
#[derive(Debug)]
pub struct ReplyThread {
    pub thread: Thread,
    pub replies: Vec<ReplyThread>,
}

/// What publishing gave.
#[derive(Debug, Clone)]
pub struct PublishResponse {
    pub id: String,
}

/// The post that a thread of Threads is, seen from the platform's side.
pub open spec fn post_of(thread: Thread) -> Post {
    Post {
        id: thread.id,
        text: thread.text,
        author_handle: thread.username,
        author_name: None,
        timestamp: thread.timestamp,
        permalink: thread.permalink,
        platform: Platform::Threads,
        media_type: thread.media_type,
    }
}

/// Whether `to` is `from` converted: the same tree of replies, each thread
/// turned into its post.
pub open spec fn is_converted(from: ReplyThread, to: crate::platform::ReplyThread) -> bool
    decreases from,
{
    &&& to.post == post_of(from.thread)
    &&& to.replies@.len() == from.replies@.len()
    &&& forall|i: int|
        0 <= i < from.replies@.len() ==> is_converted(
            #[trigger] from.replies@[i],
            to.replies@[i],
        )
}

/// Whether `to` is `from` converted, reply by reply and in the same order.
pub open spec fn all_converted(
    from: Seq<ReplyThread>,
    to: Seq<crate::platform::ReplyThread>,
) -> bool {
    &&& to.len() == from.len()
    &&& forall|i: int| 0 <= i < from.len() ==> is_converted(#[trigger] from[i], to[i])
}

/// Turns a thread of Threads into the platform's post.
pub fn thread_to_post(thread: Thread) -> (post: Post)
    ensures
        post == post_of(thread),
{
    Post {
        id: thread.id,
        text: thread.text,
        author_handle: thread.username,
        author_name: None,
        timestamp: thread.timestamp,
        permalink: thread.permalink,
        platform: Platform::Threads,
        media_type: thread.media_type,
    }
}

/// Turns reply threads of Threads into the platform's reply threads.
pub fn convert_reply_threads(threads: Vec<ReplyThread>) -> (converted: Vec<
    crate::platform::ReplyThread,
>)
    ensures
        all_converted(threads@, converted@),
    decreases threads,
{
    let mut converted: Vec<crate::platform::ReplyThread> = Vec::new();
    let mut rest = threads;
    let ghost all = threads@;
    // taken from the end, so that nothing has to be moved; put in order below
    let mut backwards: Vec<crate::platform::ReplyThread> = Vec::new();
    while rest.len() > 0
        invariant
            all == threads@,
            rest@ == all.take(rest@.len() as int),
            backwards@.len() + rest@.len() == all.len(),
            forall|j: int|
                0 <= j < backwards@.len() ==> is_converted(
                    #[trigger] all[all.len() - 1 - j],
                    backwards@[j],
                ),
        decreases rest@.len(),
    {
        let ghost n = rest@.len();
        let last = rest.pop().unwrap();
        assert(last == all[n - 1]);
        assert(rest@ =~= all.take(n - 1));
        proof {
            vstd::std_specs::vec::axiom_vec_index_decreases(threads, n - 1);
        }
        let replies = convert_reply_threads(last.replies);
        let post = thread_to_post(last.thread);
        backwards.push(crate::platform::ReplyThread { post, replies });
    }
    while backwards.len() > 0
        invariant
            backwards@.len() + converted@.len() == all.len(),
            forall|j: int|
                0 <= j < backwards@.len() ==> is_converted(
                    #[trigger] all[all.len() - 1 - j],
                    backwards@[j],
                ),
            forall|i: int| 0 <= i < converted@.len() ==> is_converted(#[trigger] all[i], converted@[i]),
        decreases backwards@.len(),
    {
        let ghost k = converted@.len() as int;
        let ghost j = backwards@.len() - 1;
        let next = backwards.pop().unwrap();
        assert(all.len() - 1 - j == k);
        assert(is_converted(all[all.len() - 1 - j], next));
        converted.push(next);
    }
    converted
}

/// Whether an error of the API says that the token is no longer good.
/// `lowered` is the error in lower case.
///
/// It does where the lower-case form names an OAuth exception, an invalid or
/// expired token, an expired session or a missing Threads permission, or
/// where the error itself carries the code 190 or 102.
pub open spec fn names_auth_error(error: Seq<char>, lowered: Seq<char>) -> bool {
    ||| has_substring(lowered, "oauthexception"@)
    ||| has_substring(lowered, "invalid access token"@)
    ||| has_substring(lowered, "session has expired"@)
    ||| has_substring(lowered, "token has expired"@)
    ||| has_substring(lowered, "requires the threads_"@)
    ||| has_substring(error, "\"code\":190"@)
    ||| has_substring(error, "\"code\":102"@)
}

/// Whether an error of the API says that the token is no longer good,
/// given the error and its lower-case form.
pub fn is_auth_error_with(error: &str, lowered: &str) -> (r: bool)
    ensures
        r == names_auth_error(error@, lowered@),
{
    contains_text(lowered, "oauthexception") || contains_text(lowered, "invalid access token")
        || contains_text(lowered, "session has expired") || contains_text(
        lowered,
        "token has expired",
    ) || contains_text(lowered, "requires the threads_") || contains_text(error, "\"code\":190")
        || contains_text(error, "\"code\":102")
}

/// Whether an error of the API says that the token is no longer good.
pub fn is_auth_error(error: &str) -> (r: bool)
    ensures
        r == names_auth_error(error@, lowercased(error@)),
{
    let lowered = to_lowercase(error);
    is_auth_error_with(error, lowered.as_str())
}

/// Polls of a container after which publishing gives up.
pub const MAX_CONTAINER_POLLS: u32 = 15;

/// Seconds between two polls of a container.
pub const CONTAINER_POLL_SECS: u64 = 2;

/// What a poll of a container says.
#[derive(Debug)]
pub enum ContainerVerdict {
    /// The container is ready to be published.
    Finished,
    /// The container is not ready: wait and poll again.
    Wait,
    /// Publishing has failed.
    Failed { error: ApiError },
}

/// What a poll of a container says, when `polls_before` polls were made
/// before it.
///
/// `FINISHED` is ready. `ERROR` fails with the message of the container,
/// or `Unknown error` where it has none. Any other status, and an answer
/// without one, means waiting; but the poll that exhausts the budget of
/// [`MAX_CONTAINER_POLLS`] fails as timed out.
pub open spec fn container_verdict(
    polls_before: nat,
    status: Option<Seq<char>>,
    error_message: Option<Seq<char>>,
) -> Result<bool, Seq<char>> {
    if status == Some("FINISHED"@) {
        Ok(true)
    } else if status == Some("ERROR"@) {
        Err(
            "Container failed: "@ + match error_message {
                Some(text) => text,
                None => "Unknown error"@,
            },
        )
    } else if polls_before + 1 >= MAX_CONTAINER_POLLS {
        Err("Container processing timed out"@)
    } else {
        Ok(false)
    }
}

/// Judges one poll of a container.
pub fn judge_container(polls_before: u32, status: Option<&str>, error_message: Option<String>) -> (v:
    ContainerVerdict)
    ensures
        match container_verdict(
            polls_before as nat,
            match status {
                Some(s) => Some(s@),
                None => None,
            },
            match error_message {
                Some(s) => Some(s@),
                None => None,
            },
        ) {
            Ok(true) => v is Finished,
            Ok(false) => v is Wait,
            Err(why) => v matches ContainerVerdict::Failed { error: ApiError::Api(text) } && text@
                == why,
        },
{
    let finished = match status {
        Some(s) => same_text(s, "FINISHED"),
        None => false,
    };
    let errored = match status {
        Some(s) => same_text(s, "ERROR"),
        None => false,
    };
    if finished {
        ContainerVerdict::Finished
    } else if errored {
        let mut text = String::from_str("Container failed: ");
        match error_message {
            Some(why) => text.append(why.as_str()),
            None => text.append("Unknown error"),
        }
        ContainerVerdict::Failed { error: ApiError::Api(text) }
    } else if polls_before >= MAX_CONTAINER_POLLS - 1 {
        ContainerVerdict::Failed {
            error: ApiError::Api(String::from_str("Container processing timed out")),
        }
    } else {
        ContainerVerdict::Wait
    }
}

/// The fields asked for with a post.
pub const THREAD_FIELDS: &'static str = "id,text,username,timestamp,media_type,permalink";

/// Posts per page where the caller names no limit.
pub const DEFAULT_LIMIT: u32 = 25;

/// The address of the user's own profile.
pub fn profile_url(access_token: &str) -> (url: String)
    ensures
        url@ == BASE_URL@
            + "/me?fields=id,username,name,threads_profile_picture_url,threads_biography&access_token="@
            + access_token@,
{
    let mut url = String::from_str(BASE_URL);
    url.append(
        "/me?fields=id,username,name,threads_profile_picture_url,threads_biography&access_token=",
    );
    url.append(access_token);
    url
}

/// The address of a list of the user's own posts (`me/threads`) or replies
/// (`me/replies`), `limit` to a page, 25 where no limit is given.
pub fn listing_url(listing: &str, limit: Option<u32>, access_token: &str) -> (url: String)
    ensures
        url@ == BASE_URL@ + "/me/"@ + listing@ + "?fields="@ + THREAD_FIELDS@ + "&limit="@
            + decimal(
            (match limit {
                Some(n) => n,
                None => DEFAULT_LIMIT,
            }) as nat,
        ) + "&access_token="@ + access_token@,
{
    let n = match limit {
        Some(n) => n,
        None => DEFAULT_LIMIT,
    };
    let mut url = String::from_str(BASE_URL);
    url.append("/me/");
    url.append(listing);
    url.append("?fields=");
    url.append(THREAD_FIELDS);
    url.append("&limit=");
    let number = decimal_text(n as u64);
    url.append(number.as_str());
    url.append("&access_token=");
    url.append(access_token);
    url
}

/// The address of one post.
pub fn thread_url(thread_id: &str, access_token: &str) -> (url: String)
    ensures
        url@ == BASE_URL@ + "/"@ + thread_id@ + "?fields="@ + THREAD_FIELDS@ + "&access_token="@
            + access_token@,
{
    let mut url = String::from_str(BASE_URL);
    url.append("/");
    url.append(thread_id);
    url.append("?fields=");
    url.append(THREAD_FIELDS);
    url.append("&access_token=");
    url.append(access_token);
    url
}

/// The address of the replies to one post.
pub fn thread_replies_url(thread_id: &str, access_token: &str) -> (url: String)
    ensures
        url@ == BASE_URL@ + "/"@ + thread_id@
            + "/replies?fields=id,text,username,timestamp&access_token="@ + access_token@,
{
    let mut url = String::from_str(BASE_URL);
    url.append("/");
    url.append(thread_id);
    url.append("/replies?fields=id,text,username,timestamp&access_token=");
    url.append(access_token);
    url
}

/// The address of the state of a container.
pub fn container_status_url(container_id: &str, access_token: &str) -> (url: String)
    ensures
        url@ == BASE_URL@ + "/"@ + container_id@ + "?fields=status,error_message&access_token="@
            + access_token@,
{
    let mut url = String::from_str(BASE_URL);
    url.append("/");
    url.append(container_id);
    url.append("?fields=status,error_message&access_token=");
    url.append(access_token);
    url
}

/// The address that makes a container for a text post, as a reply to
/// `reply_to_id` where one is given. The text stands in it
/// percent-encoded.
pub fn container_url(text: &str, reply_to_id: Option<&str>, access_token: &str) -> (url: String)
    ensures
        url@ == BASE_URL@ + "/me/threads?media_type=TEXT&text="@ + percent_encoded(text@)
            + (match reply_to_id {
            Some(id) => "&reply_to_id="@ + id@,
            None => Seq::<char>::empty(),
        }) + "&access_token="@ + access_token@,
{
    let mut url = String::from_str(BASE_URL);
    url.append("/me/threads?media_type=TEXT&text=");
    let encoded = percent_encode(text);
    url.append(encoded.as_str());
    match reply_to_id {
        Some(id) => {
            url.append("&reply_to_id=");
            url.append(id);
        },
        None => {
            assert(url@ + Seq::<char>::empty() =~= url@);
        },
    }
    url.append("&access_token=");
    url.append(access_token);
    url
}

/// The address that publishes a container.
pub fn publish_url(container_id: &str, access_token: &str) -> (url: String)
    ensures
        url@ == BASE_URL@ + "/me/threads_publish?creation_id="@ + container_id@
            + "&access_token="@ + access_token@,
{
    let mut url = String::from_str(BASE_URL);
    url.append("/me/threads_publish?creation_id=");
    url.append(container_id);
    url.append("&access_token=");
    url.append(access_token);
    url
}

} // verus!
