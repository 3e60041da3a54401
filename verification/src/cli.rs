//! The commands of the command line and their arguments.
use vstd::prelude::*;

verus! {

#[derive(Debug)]
pub struct Cli {
    /// Output raw JSON instead of formatted text
    pub json: bool,

    /// Account slug to use (overrides config default)
    pub account: Option<String>,

    /// Base URL of the Fizzy instance
    pub url: Option<String>,

    pub command: Commands,
}

#[derive(Debug)]
pub enum Commands {
    /// Authenticate with Fizzy
    Login {
        /// Paste a personal access token directly
        token: Option<String>,
    },

    /// Log out and remove stored credentials
    Logout,

    /// List your accounts
    Accounts,

    /// Show current configuration
    Config,

    /// Set a configuration value
    SetValue {
        /// Key to set (account, url)
        key: String,
        /// Value
        value: String,
    },

    /// List boards in the current account
    Boards,

    /// Work with a specific board
    Board(BoardCommand),

    /// List cards with filters
    Cards {
        /// Filter by board name or ID
        board: Option<String>,
        /// Filter by column name or ID
        column: Option<String>,
        /// Filter by assignee name or ID
        assignee: Option<String>,
        /// Filter by tag
        tag: Option<String>,
        /// Filter: all, closed, not_now, stalled, postponing_soon, golden
        index: Option<String>,
        /// Sort: latest, newest, oldest
        sort: Option<String>,
        /// Search terms
        search: Option<String>,
        /// Fetch all pages
        all: bool,
    },

    /// Work with a specific card
    Card(CardCommand),

    /// List columns for a board
    Columns {
        /// Board ID or name
        board: String,
    },

    /// Work with a specific column
    Column(ColumnCommand),

    /// List users in the current account
    Users,

    /// Show a specific user
    User {
        /// User ID
        id: String,
    },

    /// List tags in the current account
    Tags,


    /// Initialize a project for fz (board, columns, agent hooks and workflow notes)
    Init {
        /// Board name (defaults to <dirname>-<hash>)
        name: Option<String>,
        /// Use an existing board by ID or name instead of creating one
        board: Option<String>,
    },

    /// Show current identity and user info
    Whoami,

    /// Inject task context for AI agents (compact, token-efficient)
    Prime {
        /// Board name or ID (uses default board from config if set)
        board: Option<String>,
    },

    /// Show cards ready for pickup (dependency-aware)
    Ready {
        /// Board name or ID
        board: Option<String>,
    },

    /// Show cards blocked by unsatisfied dependencies
    Blocked {
        /// Board name or ID
        board: Option<String>,
    },

    /// Add a dependency: card depends on another (#after-N tag)
    Dep {
        /// Card number that has the dependency
        number: u64,
        /// Card number it depends on
        depends_on: u64,
    },

    /// View or set the plan on a card (💡 comment)
    Plan {
        /// Card number
        number: u64,
        /// Plan text (if omitted, shows existing plan)
        text: Option<String>,
    },

    /// Claim a card: assign to self and move to "In Progress"
    Claim {
        /// Card number
        number: u64,
    },

    /// Add a progress comment to a card
    Progress {
        /// Card number
        number: u64,
        /// Progress message
        message: String,
    },

    /// Mark card done: close and optionally add a final comment
    Done {
        /// Card number
        number: u64,
        /// Optional closing comment
        message: Option<String>,
    },

    /// Move card to "Review" column for human review
    Review {
        /// Card number
        number: u64,
        /// Optional review comment
        message: Option<String>,
    },

    /// List pinned cards
    Pins,

    /// List notifications
    Notifications {
        /// Mark all as read
        read_all: bool,
    },

    /// Mark a notification as read
    NotificationRead {
        /// Notification ID
        id: String,
    },

    /// Mark a notification as unread
    NotificationUnread {
        /// Notification ID
        id: String,
    },

    /// List webhooks for a board
    Webhooks {
        /// Board ID or name
        board: String,
    },

    /// Work with a specific webhook
    Webhook(WebhookCommand),
}

#[derive(Debug)]
pub enum BoardCommand {
    /// Show a board
    Show {
        /// Board ID or name
        id: String,
    },
    /// Create a board
    Create {
        /// Board name
        name: String,
        /// Make accessible to all users
        all_access: Option<bool>,
        /// Auto-postpone period in days
        entropy: Option<u32>,
    },
    /// Update a board
    Update {
        /// Board ID or name
        id: String,
        /// New name
        name: Option<String>,
        /// All access
        all_access: Option<bool>,
        /// Auto-postpone period in days
        entropy: Option<u32>,
    },
    /// Delete a board
    Delete {
        /// Board ID or name
        id: String,
    },
    /// Publish a board
    Publish {
        /// Board ID or name
        id: String,
    },
    /// Unpublish a board
    Unpublish {
        /// Board ID or name
        id: String,
    },
}

#[derive(Debug)]
pub enum CardCommand {
    /// Show card details
    Show {
        /// Card number
        number: u64,
    },
    /// Create a new card
    Create {
        /// Card title
        title: String,
        /// Board name or ID
        board: String,
        /// Card description
        description: Option<String>,
        /// Tags (comma-separated titles)
        tags: Option<String>,
        /// Create as draft
        draft: bool,
    },
    /// Update a card
    Update {
        /// Card number
        number: u64,
        /// New title
        title: Option<String>,
        /// New description
        description: Option<String>,
    },
    /// Delete a card
    Delete {
        /// Card number
        number: u64,
    },
    /// Close a card
    Close {
        /// Card number
        number: u64,
    },
    /// Reopen a closed card
    Reopen {
        /// Card number
        number: u64,
    },
    /// Postpone a card (move to Not Now)
    Postpone {
        /// Card number
        number: u64,
    },
    /// Triage a card into a column
    Triage {
        /// Card number
        number: u64,
        /// Column name or ID
        column: String,
    },
    /// Send a card back to triage
    Untriage {
        /// Card number
        number: u64,
    },
    /// Toggle a tag on a card
    Tag {
        /// Card number
        number: u64,
        /// Tag title
        tag: String,
    },
    /// Toggle user assignment on a card
    Assign {
        /// Card number
        number: u64,
        /// User name or ID
        user: String,
    },
    /// Watch a card
    Watch {
        /// Card number
        number: u64,
    },
    /// Unwatch a card
    Unwatch {
        /// Card number
        number: u64,
    },
    /// Toggle golden status
    Gold {
        /// Card number
        number: u64,
    },
    /// Remove golden status
    Ungold {
        /// Card number
        number: u64,
    },
    /// Pin a card
    Pin {
        /// Card number
        number: u64,
    },
    /// Unpin a card
    Unpin {
        /// Card number
        number: u64,
    },
    /// List or add comments on a card
    Comment {
        /// Card number
        number: u64,
        /// Comment body (if omitted, lists comments)
        body: Option<String>,
    },
    /// Update a comment
    CommentUpdate {
        /// Card number
        number: u64,
        /// Comment ID
        comment_id: String,
        /// New body
        body: String,
    },
    /// Delete a comment
    CommentDelete {
        /// Card number
        number: u64,
        /// Comment ID
        comment_id: String,
    },
    /// Add a reaction to a card
    React {
        /// Card number
        number: u64,
        /// Reaction content (emoji, max 16 chars)
        content: String,
    },
    /// Remove a reaction from a card
    Unreact {
        /// Card number
        number: u64,
        /// Reaction ID
        reaction_id: String,
    },
    /// List reactions on a card
    Reactions {
        /// Card number
        number: u64,
    },
    /// Add a step to a card
    StepAdd {
        /// Card number
        number: u64,
        /// Step content
        content: String,
    },
    /// Complete a step
    StepComplete {
        /// Card number
        number: u64,
        /// Step ID
        step_id: String,
    },
    /// Delete a step
    StepDelete {
        /// Card number
        number: u64,
        /// Step ID
        step_id: String,
    },
    /// Add a reaction to a comment
    CommentReact {
        /// Card number
        number: u64,
        /// Comment ID
        comment_id: String,
        /// Reaction content
        content: String,
    },
    /// Remove a reaction from a comment
    CommentUnreact {
        /// Card number
        number: u64,
        /// Comment ID
        comment_id: String,
        /// Reaction ID
        reaction_id: String,
    },
    /// List reactions on a comment
    CommentReactions {
        /// Card number
        number: u64,
        /// Comment ID
        comment_id: String,
    },
}

#[derive(Debug)]
pub enum ColumnCommand {
    /// Create a column
    Create {
        /// Board ID or name
        board: String,
        /// Column name
        name: String,
        /// Color (Blue, Gray, Tan, Yellow, Lime, Aqua, Violet, Purple, Pink)
        color: Option<String>,
    },
    /// Update a column
    Update {
        /// Board ID or name
        board: String,
        /// Column ID
        column_id: String,
        /// New name
        name: Option<String>,
        /// New color
        color: Option<String>,
    },
    /// Delete a column
    Delete {
        /// Board ID or name
        board: String,
        /// Column ID
        column_id: String,
    },
}

#[derive(Debug)]
pub enum WebhookCommand {
    /// Show a webhook
    Show {
        /// Board ID or name
        board: String,
        /// Webhook ID
        id: String,
    },
    /// Create a webhook
    Create {
        /// Board ID or name
        board: String,
        /// Webhook name
        name: String,
        /// Payload URL
        payload_url: String,
        /// Subscribed actions (comma-separated)
        actions: String,
    },
    /// Update a webhook
    Update {
        /// Board ID or name
        board: String,
        /// Webhook ID
        id: String,
        /// New name
        name: Option<String>,
        /// New subscribed actions (comma-separated)
        actions: Option<String>,
    },
    /// Delete a webhook
    Delete {
        /// Board ID or name
        board: String,
        /// Webhook ID
        id: String,
    },
    /// Activate a webhook
    Activate {
        /// Board ID or name
        board: String,
        /// Webhook ID
        id: String,
    },
}

} // verus!
