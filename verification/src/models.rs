//! The data that the Fizzy API returns and the request bodies that it accepts.
//!
//! Instants are held as [`Timestamp`]s (seconds and nanoseconds since the Unix epoch).
use vstd::prelude::*;

verus! {

/// The first second that `chrono` can show: midnight starting January 1 of year -262143,
/// its earliest date, in seconds from the epoch (a whole number of days).
pub const MIN_DISPLAY_SECS: i64 = -8_334_601_228_800;

/// The last second that `chrono` can show: the last second of December 31 of year 262142,
/// its latest date, in seconds from the epoch.
pub const MAX_DISPLAY_SECS: i64 = 8_210_266_876_799;

/// An instant in UTC: whole seconds since the Unix epoch and the nanoseconds after them
/// (1,000,000,000 or more only during a leap second).
#[derive(Clone, Copy, Debug, PartialEq, Eq, Structural)]
pub struct Timestamp {
    pub secs: i64,
    pub nanos: u32,
}

impl Timestamp {
    /// The nanoseconds part is below one second.
    pub open spec fn wf(self) -> bool {
        self.nanos < 1_000_000_000
    }

    /// The instant is one that `chrono::DateTime::from_timestamp` accepts, so that it can be
    /// shown as a date: its day lies in `chrono`'s range of dates, and its nanoseconds are
    /// below one second, or below two seconds in the last second of a minute (a leap second).
    pub open spec fn displayable(self) -> bool {
        &&& MIN_DISPLAY_SECS <= self.secs <= MAX_DISPLAY_SECS
        &&& (self.nanos < 1_000_000_000 || (self.nanos < 2_000_000_000 && (self.secs
            - MIN_DISPLAY_SECS) % 60 == 59))
    }

    /// Whether the instant is displayable.
    pub fn is_displayable(&self) -> (b: bool)
        ensures
            b == self.displayable(),
    {
        if self.secs < MIN_DISPLAY_SECS || self.secs > MAX_DISPLAY_SECS {
            return false;
        }
        if self.nanos < 1_000_000_000 {
            return true;
        }
        let into_range = (self.secs - MIN_DISPLAY_SECS) as u64;
        self.nanos < 2_000_000_000 && into_range % 60 == 59
    }

    /// The instant as nanoseconds since the epoch.
    pub open spec fn total_nanos(self) -> int {
        self.secs * 1_000_000_000 + self.nanos
    }
}

// --- Identity / Accounts ---

#[derive(Debug)]
pub struct IdentityResponse {
    pub accounts: Vec<AccountWithUser>,
}

#[derive(Debug)]
pub struct AccountWithUser {
    pub id: String,
    pub name: String,
    pub slug: String,
    pub created_at: Timestamp,
    pub user: User,
}

#[derive(Debug)]
pub struct AccountSettings {
    pub id: String,
    pub name: String,
    pub cards_count: u64,
    pub created_at: Timestamp,
    pub auto_postpone_period_in_days: Option<u32>,
}

// --- Users ---

#[derive(Debug)]
pub struct User {
    pub id: String,
    pub name: String,
    pub role: String,
    pub active: bool,
    pub email_address: Option<String>,
    pub created_at: Timestamp,
    pub url: String,
    pub avatar_url: Option<String>,
}

// --- Boards ---

#[derive(Debug)]
pub struct Board {
    pub id: String,
    pub name: String,
    pub all_access: bool,
    pub created_at: Timestamp,
    pub auto_postpone_period_in_days: Option<u32>,
    pub url: String,
    pub creator: User,
    pub public_url: Option<String>,
}

// --- Columns ---

/// A column color: a plain name (column list) or a name with its value (card show).
#[derive(Debug)]
pub enum ColumnColor {
    Plain(String),
    Structured { name: String, value: String },
}

impl ColumnColor {
    /// The name of the color, as the column list shows it.
    pub open spec fn name_view(&self) -> Seq<char> {
        match self {
            ColumnColor::Plain(s) => s@,
            ColumnColor::Structured { name, .. } => name@,
        }
    }

    /// The text of the color: its name.
    pub fn to_string(&self) -> (s: String)
        ensures
            s@ == self.name_view(),
    {
        match self {
            ColumnColor::Plain(s) => s.clone(),
            ColumnColor::Structured { name, .. } => name.clone(),
        }
    }
}

#[derive(Debug)]
pub struct Column {
    pub id: String,
    pub name: String,
    pub color: ColumnColor,
    pub created_at: Timestamp,
}

// --- Tags ---

#[derive(Debug)]
pub struct Tag {
    pub id: String,
    pub title: String,
    pub created_at: Timestamp,
    pub url: String,
}

// --- Cards ---

#[derive(Debug)]
pub struct Card {
    pub id: String,
    pub number: u64,
    pub title: String,
    pub status: String,
    pub description: String,
    pub description_html: String,
    pub image_url: Option<String>,
    pub has_attachments: bool,
    pub tags: Vec<String>,
    // Only on show endpoint
    pub closed: Option<bool>,
    pub postponed: Option<bool>,
    pub golden: bool,
    pub last_active_at: Timestamp,
    pub created_at: Timestamp,
    pub url: String,
    pub board: Board,
    pub column: Option<Column>,
    pub creator: User,
    pub assignees: Option<Vec<User>>,
    pub has_more_assignees: Option<bool>,
    pub comments_url: Option<String>,
    pub reactions_url: Option<String>,
    pub steps: Option<Vec<Step>>,
}

#[derive(Debug)]
pub struct Step {
    pub id: String,
    pub content: String,
    pub completed: bool,
}

// --- Comments ---

#[derive(Debug)]
pub struct CommentBody {
    pub plain_text: String,
    pub html: String,
}

#[derive(Debug)]
pub struct Comment {
    pub id: String,
    pub created_at: Timestamp,
    pub updated_at: Timestamp,
    pub body: CommentBody,
    pub creator: User,
    pub card: CommentCard,
    pub reactions_url: String,
    pub url: String,
}

#[derive(Debug)]
pub struct CommentCard {
    pub id: String,
    pub url: String,
}

// --- Reactions ---

#[derive(Debug)]
pub struct Reaction {
    pub id: String,
    pub content: String,
    pub reacter: User,
    pub url: String,
}

// --- Notifications ---

#[derive(Debug)]
pub struct Notification {
    pub id: String,
    pub read: bool,
    pub read_at: Option<Timestamp>,
    pub created_at: Timestamp,
    pub title: String,
    pub body: String,
    pub creator: User,
    pub card: NotificationCard,
    pub url: String,
}

#[derive(Debug)]
pub struct NotificationCard {
    pub id: String,
    pub title: String,
    pub status: String,
    pub url: String,
}

// --- Webhooks ---

#[derive(Debug)]
pub struct Webhook {
    pub id: String,
    pub name: String,
    pub payload_url: String,
    pub active: bool,
    pub signing_secret: String,
    pub subscribed_actions: Vec<String>,
    pub created_at: Timestamp,
    pub url: String,
    pub board: Board,
}

// --- Auth ---

#[derive(Debug)]
pub struct PendingAuthResponse {
    pub pending_authentication_token: String,
}

#[derive(Debug)]
pub struct SessionResponse {
    pub session_token: String,
}

#[derive(Debug)]
pub struct AccessTokenResponse {
    pub token: String,
    pub description: String,
    pub permission: String,
}

// --- Request bodies ---

#[derive(Debug)]
pub struct CreateBoardRequest {
    pub board: CreateBoardBody,
}

#[derive(Debug)]
pub struct CreateBoardBody {
    pub name: String,
    pub all_access: Option<bool>,
    pub auto_postpone_period_in_days: Option<u32>,
}

#[derive(Debug)]
pub struct UpdateBoardRequest {
    pub board: UpdateBoardBody,
}

#[derive(Debug)]
pub struct UpdateBoardBody {
    pub name: Option<String>,
    pub all_access: Option<bool>,
    pub auto_postpone_period_in_days: Option<u32>,
}

#[derive(Debug)]
pub struct CreateCardRequest {
    pub card: CreateCardBody,
}

#[derive(Debug)]
pub struct CreateCardBody {
    pub title: String,
    pub description: Option<String>,
    pub status: Option<String>,
    pub tag_ids: Option<Vec<String>>,
}

#[derive(Debug)]
pub struct UpdateCardRequest {
    pub card: UpdateCardBody,
}

#[derive(Debug)]
pub struct UpdateCardBody {
    pub title: Option<String>,
    pub description: Option<String>,
    pub status: Option<String>,
    pub tag_ids: Option<Vec<String>>,
}

#[derive(Debug)]
pub struct TriageRequest {
    pub column_id: String,
}

#[derive(Debug)]
pub struct TaggingRequest {
    pub tag_title: String,
}

#[derive(Debug)]
pub struct AssignmentRequest {
    pub assignee_id: String,
}

#[derive(Debug)]
pub struct CreateCommentRequest {
    pub comment: CreateCommentBody,
}

#[derive(Debug)]
pub struct CreateCommentBody {
    pub body: String,
}

#[derive(Debug)]
pub struct UpdateCommentRequest {
    pub comment: UpdateCommentBody,
}

#[derive(Debug)]
pub struct UpdateCommentBody {
    pub body: String,
}

#[derive(Debug)]
pub struct CreateReactionRequest {
    pub reaction: CreateReactionBody,
}

#[derive(Debug)]
pub struct CreateReactionBody {
    pub content: String,
}

#[derive(Debug)]
pub struct CreateStepRequest {
    pub step: CreateStepBody,
}

#[derive(Debug)]
pub struct CreateStepBody {
    pub content: String,
    pub completed: Option<bool>,
}

#[derive(Debug)]
pub struct UpdateStepRequest {
    pub step: UpdateStepBody,
}

#[derive(Debug)]
pub struct UpdateStepBody {
    pub content: Option<String>,
    pub completed: Option<bool>,
}

#[derive(Debug)]
pub struct CreateColumnRequest {
    pub column: CreateColumnBody,
}

#[derive(Debug)]
pub struct CreateColumnBody {
    pub name: String,
    pub color: Option<String>,
}

#[derive(Debug)]
pub struct UpdateColumnRequest {
    pub column: UpdateColumnBody,
}

#[derive(Debug)]
pub struct UpdateColumnBody {
    pub name: Option<String>,
    pub color: Option<String>,
}

#[derive(Debug)]
pub struct CreateWebhookRequest {
    pub webhook: CreateWebhookBody,
}

#[derive(Debug)]
pub struct CreateWebhookBody {
    pub name: String,
    pub url: String,
    pub subscribed_actions: Vec<String>,
}

#[derive(Debug)]
pub struct UpdateWebhookRequest {
    pub webhook: UpdateWebhookBody,
}

#[derive(Debug)]
pub struct UpdateWebhookBody {
    pub name: Option<String>,
    pub subscribed_actions: Option<Vec<String>>,
}

#[derive(Debug)]
pub struct MagicLinkRequest {
    pub email_address: String,
}

#[derive(Debug)]
pub struct MagicLinkCodeRequest {
    pub code: String,
}

#[derive(Debug)]
pub struct CreateAccessTokenRequest {
    pub access_token: CreateAccessTokenBody,
}

#[derive(Debug)]
pub struct CreateAccessTokenBody {
    pub description: String,
    pub permission: String,
}


/// A copy of an optional string.
pub fn clone_opt_string(s: &Option<String>) -> (r: Option<String>)
    ensures
        r == *s,
{
    match s {
        Some(x) => Some(x.clone()),
        None => None,
    }
}

impl Clone for User {
    fn clone(&self) -> (c: Self)
        ensures
            c == *self,
    {
        User {
            id: self.id.clone(),
            name: self.name.clone(),
            role: self.role.clone(),
            active: self.active,
            email_address: clone_opt_string(&self.email_address),
            created_at: self.created_at,
            url: self.url.clone(),
            avatar_url: clone_opt_string(&self.avatar_url),
        }
    }
}

impl Clone for Board {
    fn clone(&self) -> (c: Self)
        ensures
            c == *self,
    {
        Board {
            id: self.id.clone(),
            name: self.name.clone(),
            all_access: self.all_access,
            created_at: self.created_at,
            auto_postpone_period_in_days: self.auto_postpone_period_in_days,
            url: self.url.clone(),
            creator: self.creator.clone(),
            public_url: clone_opt_string(&self.public_url),
        }
    }
}

impl Clone for ColumnColor {
    fn clone(&self) -> (c: Self)
        ensures
            c == *self,
    {
        match self {
            ColumnColor::Plain(s) => ColumnColor::Plain(s.clone()),
            ColumnColor::Structured { name, value } => ColumnColor::Structured {
                name: name.clone(),
                value: value.clone(),
            },
        }
    }
}

impl Clone for Column {
    fn clone(&self) -> (c: Self)
        ensures
            c == *self,
    {
        Column {
            id: self.id.clone(),
            name: self.name.clone(),
            color: self.color.clone(),
            created_at: self.created_at,
        }
    }
}

} // verus!
