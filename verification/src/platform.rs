//! What the platforms have in common: posts, profiles, reply threads and
//! the errors of talking to them.

use crate::api::ApiError;
use vstd::prelude::*;
use vstd::string::*;

verus! {

/// Why a platform could not be talked to.
#[derive(Debug, Clone)]
pub enum PlatformError {
    Request(String),
    Auth(String),
    Api(String),
    NotImplemented,
}

impl PlatformError {
    /// The error as a line of text.
    pub open spec fn message_text(self) -> Seq<char> {
        match self {
            PlatformError::Request(why) => "HTTP request failed: "@ + why@,
            PlatformError::Auth(why) => "Authentication failed: "@ + why@,
            PlatformError::Api(why) => "API error: "@ + why@,
            PlatformError::NotImplemented => "Not implemented for this platform"@,
        }
    }

    /// The error as a line of text.
    pub fn message(&self) -> (text: String)
        ensures
            text@ == self.message_text(),
    {
        match self {
            PlatformError::Request(why) => {
                let mut text = String::from_str("HTTP request failed: ");
                text.append(why.as_str());
                text
            },
            PlatformError::Auth(why) => {
                let mut text = String::from_str("Authentication failed: ");
                text.append(why.as_str());
                text
            },
            PlatformError::Api(why) => {
                let mut text = String::from_str("API error: ");
                text.append(why.as_str());
                text
            },
            PlatformError::NotImplemented => String::from_str("Not implemented for this platform"),
        }
    }

    /// The platform's error for an error of the Threads API: a failed
    /// request stays a failed request, an API error an API error.
    pub fn from_api(err: ApiError) -> (e: PlatformError)
        ensures
            match err {
                ApiError::Request(why) => e matches PlatformError::Request(text) && text@ == why@,
                ApiError::Api(why) => e matches PlatformError::Api(text) && text@ == why@,
            },
    {
        match err {
            ApiError::Request(why) => PlatformError::Request(why),
            ApiError::Api(why) => PlatformError::Api(why),
        }
    }
}

/// A platform the client talks to.
#[derive(Debug, Clone, Copy, PartialEq, Eq, Hash, Structural)]
pub enum Platform {
    Threads,
    Bluesky,
}

impl Platform {
    /// The platform's name.
    pub fn name(&self) -> (text: &'static str)
        ensures
            text@ == match self {
                Platform::Threads => "Threads"@,
                Platform::Bluesky => "Bluesky"@,
            },
    {
        match self {
            Platform::Threads => "Threads",
            Platform::Bluesky => "Bluesky",
        }
    }
}

/// A post, whatever platform it is from.
#[derive(Debug, Clone)]
pub struct Post {
    pub id: String,
    pub text: Option<String>,
    pub author_handle: Option<String>,
    pub author_name: Option<String>,
    pub timestamp: Option<String>,
    pub permalink: Option<String>,
    pub platform: Platform,
    pub media_type: Option<String>,
}

/// A user's profile, whatever platform it is from.
#[derive(Debug, Clone)]
pub struct UserProfile {
    pub id: String,
    pub handle: Option<String>,
    pub display_name: Option<String>,
    pub avatar_url: Option<String>,
    pub bio: Option<String>,
    pub platform: Platform,
}

/// A reply with the replies to it.
#[derive(Debug)]
pub struct ReplyThread {
    pub post: Post,
    pub replies: Vec<ReplyThread>,
}

/// What publishing a post gave.
#[derive(Debug, Clone)]
pub struct PostResult {
    pub id: String,
    pub platform: Platform,
}

} // verus!
