use vstd::prelude::*;
use crate::json::{Json, JsonView, copy_json, json_view};
use crate::text::{project_name, project_name_of};

verus! {

// ---------------------------------------------------------------
// Executable record types
// ---------------------------------------------------------------

/// Fields shared by every conversational record.
pub struct BaseMessage {
    pub parent_uuid: Option<String>,
    pub is_sidechain: bool,
    pub user_type: String,
    pub cwd: String,
    pub session_id: String,
    pub version: String,
    pub uuid: String,
    pub timestamp: String,
}

/// One block of a message body.
pub enum Content {
    Text { text: String },
    ToolUse { id: String, name: String, input: Vec<(String, Json)> },
    ToolResult {
        tool_use_id: String,
        content: Option<ToolResultContent>,
        is_error: Option<bool>,
    },
    Thinking { thinking: String, signature: String },
    Image { source: ImageSource },
}

/// The payload of a tool result, told apart by its shape alone.
pub enum ToolResultContent {
    String(String),
    TextArray(Vec<TextContent>),
    ImageArray(Vec<ImageContent>),
}

pub struct TextContent {
    pub content_type: String,
    pub text: String,
}

pub struct ImageContent {
    pub content_type: String,
    pub source: ImageSource,
}

pub struct ImageSource {
    pub source_type: String,
    pub data: Option<String>,
    pub media_type: Option<String>,
}

/// Token accounting of one assistant turn.
pub struct Usage {
    pub input_tokens: u64,
    pub cache_creation_input_tokens: u64,
    pub cache_read_input_tokens: u64,
    pub output_tokens: u64,
    pub service_tier: Option<String>,
    pub server_tool_use: Option<ServerToolUse>,
}

pub struct ServerToolUse {
    pub web_search_requests: u64,
}

/// One decoded log record.
pub enum SessionMessage {
    Summary { summary: String, leaf_uuid: String },
    System {
        base: BaseMessage,
        content: String,
        is_meta: bool,
        tool_use_id: Option<String>,
        level: Option<String>,
        git_branch: Option<String>,
        request_id: Option<String>,
    },
    User {
        base: BaseMessage,
        message: UserMessage,
        git_branch: Option<String>,
        is_meta: Option<bool>,
        is_compact_summary: Option<bool>,
        tool_use_result: Option<Json>,
    },
    Assistant {
        base: BaseMessage,
        message: AssistantMessage,
        request_id: Option<String>,
        git_branch: Option<String>,
        is_api_error_message: Option<bool>,
    },
}

pub struct UserMessage {
    pub role: String,
    pub content: UserContent,
}

/// A user message body: a plain string or a sequence of blocks.
pub enum UserContent {
    String(String),
    Array(Vec<Content>),
}

pub struct AssistantMessage {
    pub id: String,
    pub message_type: String,
    pub role: String,
    pub model: String,
    pub content: Vec<Content>,
    pub stop_reason: Option<String>,
    pub stop_sequence: Option<String>,
    pub usage: Usage,
}

// ---------------------------------------------------------------
// Mathematical values of the record types
// ---------------------------------------------------------------

pub struct BaseMessageView {
    pub parent_uuid: Option<Seq<char>>,
    pub is_sidechain: bool,
    pub user_type: Seq<char>,
    pub cwd: Seq<char>,
    pub session_id: Seq<char>,
    pub version: Seq<char>,
    pub uuid: Seq<char>,
    pub timestamp: Seq<char>,
}

pub enum ContentView {
    Text { text: Seq<char> },
    ToolUse { id: Seq<char>, name: Seq<char>, input: Seq<(Seq<char>, JsonView)> },
    ToolResult {
        tool_use_id: Seq<char>,
        content: Option<ToolResultContentView>,
        is_error: Option<bool>,
    },
    Thinking { thinking: Seq<char>, signature: Seq<char> },
    Image { source: ImageSourceView },
}

pub enum ToolResultContentView {
    String(Seq<char>),
    TextArray(Seq<TextContentView>),
    ImageArray(Seq<ImageContentView>),
}

pub struct TextContentView {
    pub content_type: Seq<char>,
    pub text: Seq<char>,
}

pub struct ImageContentView {
    pub content_type: Seq<char>,
    pub source: ImageSourceView,
}

pub struct ImageSourceView {
    pub source_type: Seq<char>,
    pub data: Option<Seq<char>>,
    pub media_type: Option<Seq<char>>,
}

pub struct UsageView {
    pub input_tokens: u64,
    pub cache_creation_input_tokens: u64,
    pub cache_read_input_tokens: u64,
    pub output_tokens: u64,
    pub service_tier: Option<Seq<char>>,
    pub server_tool_use: Option<ServerToolUseView>,
}

pub struct ServerToolUseView {
    pub web_search_requests: u64,
}

pub enum SessionMessageView {
    Summary { summary: Seq<char>, leaf_uuid: Seq<char> },
    System {
        base: BaseMessageView,
        content: Seq<char>,
        is_meta: bool,
        tool_use_id: Option<Seq<char>>,
        level: Option<Seq<char>>,
        git_branch: Option<Seq<char>>,
        request_id: Option<Seq<char>>,
    },
    User {
        base: BaseMessageView,
        message: UserMessageView,
        git_branch: Option<Seq<char>>,
        is_meta: Option<bool>,
        is_compact_summary: Option<bool>,
        tool_use_result: Option<JsonView>,
    },
    Assistant {
        base: BaseMessageView,
        message: AssistantMessageView,
        request_id: Option<Seq<char>>,
        git_branch: Option<Seq<char>>,
        is_api_error_message: Option<bool>,
    },
}

pub struct UserMessageView {
    pub role: Seq<char>,
    pub content: UserContentView,
}

pub enum UserContentView {
    String(Seq<char>),
    Array(Seq<ContentView>),
}

pub struct AssistantMessageView {
    pub id: Seq<char>,
    pub message_type: Seq<char>,
    pub role: Seq<char>,
    pub model: Seq<char>,
    pub content: Seq<ContentView>,
    pub stop_reason: Option<Seq<char>>,
    pub stop_sequence: Option<Seq<char>>,
    pub usage: UsageView,
}

impl DeepView for BaseMessage {
    type V = BaseMessageView;

    open spec fn deep_view(&self) -> BaseMessageView {
        BaseMessageView {
            parent_uuid: self.parent_uuid.deep_view(),
            is_sidechain: self.is_sidechain,
            user_type: self.user_type@,
            cwd: self.cwd@,
            session_id: self.session_id@,
            version: self.version@,
            uuid: self.uuid@,
            timestamp: self.timestamp@,
        }
    }
}

impl DeepView for ImageSource {
    type V = ImageSourceView;

    open spec fn deep_view(&self) -> ImageSourceView {
        ImageSourceView {
            source_type: self.source_type@,
            data: self.data.deep_view(),
            media_type: self.media_type.deep_view(),
        }
    }
}

impl DeepView for TextContent {
    type V = TextContentView;

    open spec fn deep_view(&self) -> TextContentView {
        TextContentView { content_type: self.content_type@, text: self.text@ }
    }
}

impl DeepView for ImageContent {
    type V = ImageContentView;

    open spec fn deep_view(&self) -> ImageContentView {
        ImageContentView { content_type: self.content_type@, source: self.source.deep_view() }
    }
}

impl DeepView for ToolResultContent {
    type V = ToolResultContentView;

    open spec fn deep_view(&self) -> ToolResultContentView {
        match self {
            ToolResultContent::String(s) => ToolResultContentView::String(s@),
            ToolResultContent::TextArray(v) => ToolResultContentView::TextArray(v.deep_view()),
            ToolResultContent::ImageArray(v) => ToolResultContentView::ImageArray(v.deep_view()),
        }
    }
}

impl DeepView for Content {
    type V = ContentView;

    open spec fn deep_view(&self) -> ContentView {
        match self {
            Content::Text { text } => ContentView::Text { text: text@ },
            Content::ToolUse { id, name, input } => ContentView::ToolUse {
                id: id@,
                name: name@,
                input: input.deep_view(),
            },
            Content::ToolResult { tool_use_id, content, is_error } => ContentView::ToolResult {
                tool_use_id: tool_use_id@,
                content: content.deep_view(),
                is_error: *is_error,
            },
            Content::Thinking { thinking, signature } => ContentView::Thinking {
                thinking: thinking@,
                signature: signature@,
            },
            Content::Image { source } => ContentView::Image { source: source.deep_view() },
        }
    }
}

impl DeepView for ServerToolUse {
    type V = ServerToolUseView;

    open spec fn deep_view(&self) -> ServerToolUseView {
        ServerToolUseView { web_search_requests: self.web_search_requests }
    }
}

impl DeepView for Usage {
    type V = UsageView;

    open spec fn deep_view(&self) -> UsageView {
        UsageView {
            input_tokens: self.input_tokens,
            cache_creation_input_tokens: self.cache_creation_input_tokens,
            cache_read_input_tokens: self.cache_read_input_tokens,
            output_tokens: self.output_tokens,
            service_tier: self.service_tier.deep_view(),
            server_tool_use: self.server_tool_use.deep_view(),
        }
    }
}

impl DeepView for UserContent {
    type V = UserContentView;

    open spec fn deep_view(&self) -> UserContentView {
        match self {
            UserContent::String(s) => UserContentView::String(s@),
            UserContent::Array(v) => UserContentView::Array(v.deep_view()),
        }
    }
}

impl DeepView for UserMessage {
    type V = UserMessageView;

    open spec fn deep_view(&self) -> UserMessageView {
        UserMessageView { role: self.role@, content: self.content.deep_view() }
    }
}

impl DeepView for AssistantMessage {
    type V = AssistantMessageView;

    open spec fn deep_view(&self) -> AssistantMessageView {
        AssistantMessageView {
            id: self.id@,
            message_type: self.message_type@,
            role: self.role@,
            model: self.model@,
            content: self.content.deep_view(),
            stop_reason: self.stop_reason.deep_view(),
            stop_sequence: self.stop_sequence.deep_view(),
            usage: self.usage.deep_view(),
        }
    }
}

impl DeepView for SessionMessage {
    type V = SessionMessageView;

    open spec fn deep_view(&self) -> SessionMessageView {
        match self {
            SessionMessage::Summary { summary, leaf_uuid } => SessionMessageView::Summary {
                summary: summary@,
                leaf_uuid: leaf_uuid@,
            },
            SessionMessage::System {
                base,
                content,
                is_meta,
                tool_use_id,
                level,
                git_branch,
                request_id,
            } => SessionMessageView::System {
                base: base.deep_view(),
                content: content@,
                is_meta: *is_meta,
                tool_use_id: tool_use_id.deep_view(),
                level: level.deep_view(),
                git_branch: git_branch.deep_view(),
                request_id: request_id.deep_view(),
            },
            SessionMessage::User {
                base,
                message,
                git_branch,
                is_meta,
                is_compact_summary,
                tool_use_result,
            } => SessionMessageView::User {
                base: base.deep_view(),
                message: message.deep_view(),
                git_branch: git_branch.deep_view(),
                is_meta: *is_meta,
                is_compact_summary: *is_compact_summary,
                tool_use_result: tool_use_result.deep_view(),
            },
            SessionMessage::Assistant {
                base,
                message,
                request_id,
                git_branch,
                is_api_error_message,
            } => SessionMessageView::Assistant {
                base: base.deep_view(),
                message: message.deep_view(),
                request_id: request_id.deep_view(),
                git_branch: git_branch.deep_view(),
                is_api_error_message: *is_api_error_message,
            },
        }
    }
}

// ---------------------------------------------------------------
// Copies
// ---------------------------------------------------------------

fn copy_text(o: &Option<String>) -> (r: Option<String>)
    ensures
        r.deep_view() == o.deep_view(),
{
    match o {
        Some(s) => Some(s.clone()),
        None => None,
    }
}

pub(crate) fn copy_entries(es: &Vec<(String, Json)>) -> (r: Vec<(String, Json)>)
    ensures
        r.deep_view() == es.deep_view(),
{
    let mut out: Vec<(String, Json)> = Vec::new();
    let mut i: usize = 0;
    while i < es.len()
        invariant
            i <= es.len(),
            out.len() == i,
            forall|k: int| 0 <= k < i ==> #[trigger] out[k].deep_view() == es[k].deep_view(),
        decreases es.len() - i,
    {
        out.push((es[i].0.clone(), copy_json(&es[i].1)));
        i = i + 1;
    }
    assert(out.deep_view() =~= es.deep_view());
    out
}

fn copy_texts(v: &Vec<TextContent>) -> (r: Vec<TextContent>)
    ensures
        r.deep_view() == v.deep_view(),
{
    let mut out: Vec<TextContent> = Vec::new();
    let mut i: usize = 0;
    while i < v.len()
        invariant
            i <= v.len(),
            out.len() == i,
            forall|k: int| 0 <= k < i ==> #[trigger] out[k].deep_view() == v[k].deep_view(),
        decreases v.len() - i,
    {
        out.push(v[i].clone());
        i = i + 1;
    }
    assert(out.deep_view() =~= v.deep_view());
    out
}

fn copy_images(v: &Vec<ImageContent>) -> (r: Vec<ImageContent>)
    ensures
        r.deep_view() == v.deep_view(),
{
    let mut out: Vec<ImageContent> = Vec::new();
    let mut i: usize = 0;
    while i < v.len()
        invariant
            i <= v.len(),
            out.len() == i,
            forall|k: int| 0 <= k < i ==> #[trigger] out[k].deep_view() == v[k].deep_view(),
        decreases v.len() - i,
    {
        out.push(v[i].clone());
        i = i + 1;
    }
    assert(out.deep_view() =~= v.deep_view());
    out
}

fn copy_blocks(v: &Vec<Content>) -> (r: Vec<Content>)
    ensures
        r.deep_view() == v.deep_view(),
{
    let mut out: Vec<Content> = Vec::new();
    let mut i: usize = 0;
    while i < v.len()
        invariant
            i <= v.len(),
            out.len() == i,
            forall|k: int| 0 <= k < i ==> #[trigger] out[k].deep_view() == v[k].deep_view(),
        decreases v.len() - i,
    {
        out.push(v[i].clone());
        i = i + 1;
    }
    assert(out.deep_view() =~= v.deep_view());
    out
}

impl Clone for ImageSource {
    fn clone(&self) -> (r: Self)
        ensures
            r.deep_view() == self.deep_view(),
    {
        ImageSource {
            source_type: self.source_type.clone(),
            data: copy_text(&self.data),
            media_type: copy_text(&self.media_type),
        }
    }
}

impl Clone for TextContent {
    fn clone(&self) -> (r: Self)
        ensures
            r.deep_view() == self.deep_view(),
    {
        TextContent { content_type: self.content_type.clone(), text: self.text.clone() }
    }
}

impl Clone for ImageContent {
    fn clone(&self) -> (r: Self)
        ensures
            r.deep_view() == self.deep_view(),
    {
        ImageContent { content_type: self.content_type.clone(), source: self.source.clone() }
    }
}

impl Clone for ToolResultContent {
    fn clone(&self) -> (r: Self)
        ensures
            r.deep_view() == self.deep_view(),
    {
        match self {
            ToolResultContent::String(s) => ToolResultContent::String(s.clone()),
            ToolResultContent::TextArray(v) => ToolResultContent::TextArray(copy_texts(v)),
            ToolResultContent::ImageArray(v) => ToolResultContent::ImageArray(copy_images(v)),
        }
    }
}

impl Clone for Content {
    fn clone(&self) -> (r: Self)
        ensures
            r.deep_view() == self.deep_view(),
    {
        match self {
            Content::Text { text } => Content::Text { text: text.clone() },
            Content::ToolUse { id, name, input } => Content::ToolUse {
                id: id.clone(),
                name: name.clone(),
                input: copy_entries(input),
            },
            Content::ToolResult { tool_use_id, content, is_error } => Content::ToolResult {
                tool_use_id: tool_use_id.clone(),
                content: match content {
                    Some(c) => Some(c.clone()),
                    None => None,
                },
                is_error: *is_error,
            },
            Content::Thinking { thinking, signature } => Content::Thinking {
                thinking: thinking.clone(),
                signature: signature.clone(),
            },
            Content::Image { source } => Content::Image { source: source.clone() },
        }
    }
}

impl Clone for ServerToolUse {
    fn clone(&self) -> (r: Self)
        ensures
            r.deep_view() == self.deep_view(),
    {
        ServerToolUse { web_search_requests: self.web_search_requests }
    }
}

impl Clone for Usage {
    fn clone(&self) -> (r: Self)
        ensures
            r.deep_view() == self.deep_view(),
    {
        Usage {
            input_tokens: self.input_tokens,
            cache_creation_input_tokens: self.cache_creation_input_tokens,
            cache_read_input_tokens: self.cache_read_input_tokens,
            output_tokens: self.output_tokens,
            service_tier: copy_text(&self.service_tier),
            server_tool_use: match &self.server_tool_use {
                Some(s) => Some(s.clone()),
                None => None,
            },
        }
    }
}

impl Clone for BaseMessage {
    fn clone(&self) -> (r: Self)
        ensures
            r.deep_view() == self.deep_view(),
    {
        BaseMessage {
            parent_uuid: copy_text(&self.parent_uuid),
            is_sidechain: self.is_sidechain,
            user_type: self.user_type.clone(),
            cwd: self.cwd.clone(),
            session_id: self.session_id.clone(),
            version: self.version.clone(),
            uuid: self.uuid.clone(),
            timestamp: self.timestamp.clone(),
        }
    }
}

impl Clone for UserContent {
    fn clone(&self) -> (r: Self)
        ensures
            r.deep_view() == self.deep_view(),
    {
        match self {
            UserContent::String(s) => UserContent::String(s.clone()),
            UserContent::Array(v) => UserContent::Array(copy_blocks(v)),
        }
    }
}

impl Clone for UserMessage {
    fn clone(&self) -> (r: Self)
        ensures
            r.deep_view() == self.deep_view(),
    {
        UserMessage { role: self.role.clone(), content: self.content.clone() }
    }
}

impl Clone for AssistantMessage {
    fn clone(&self) -> (r: Self)
        ensures
            r.deep_view() == self.deep_view(),
    {
        AssistantMessage {
            id: self.id.clone(),
            message_type: self.message_type.clone(),
            role: self.role.clone(),
            model: self.model.clone(),
            content: copy_blocks(&self.content),
            stop_reason: copy_text(&self.stop_reason),
            stop_sequence: copy_text(&self.stop_sequence),
            usage: self.usage.clone(),
        }
    }
}

impl Clone for SessionMessage {
    fn clone(&self) -> (r: Self)
        ensures
            r.deep_view() == self.deep_view(),
    {
        match self {
            SessionMessage::Summary { summary, leaf_uuid } => SessionMessage::Summary {
                summary: summary.clone(),
                leaf_uuid: leaf_uuid.clone(),
            },
            SessionMessage::System {
                base,
                content,
                is_meta,
                tool_use_id,
                level,
                git_branch,
                request_id,
            } => SessionMessage::System {
                base: base.clone(),
                content: content.clone(),
                is_meta: *is_meta,
                tool_use_id: copy_text(tool_use_id),
                level: copy_text(level),
                git_branch: copy_text(git_branch),
                request_id: copy_text(request_id),
            },
            SessionMessage::User {
                base,
                message,
                git_branch,
                is_meta,
                is_compact_summary,
                tool_use_result,
            } => SessionMessage::User {
                base: base.clone(),
                message: message.clone(),
                git_branch: copy_text(git_branch),
                is_meta: *is_meta,
                is_compact_summary: *is_compact_summary,
                tool_use_result: match tool_use_result {
                    Some(j) => Some(copy_json(j)),
                    None => None,
                },
            },
            SessionMessage::Assistant {
                base,
                message,
                request_id,
                git_branch,
                is_api_error_message,
            } => SessionMessage::Assistant {
                base: base.clone(),
                message: message.clone(),
                request_id: copy_text(request_id),
                git_branch: copy_text(git_branch),
                is_api_error_message: *is_api_error_message,
            },
        }
    }
}

// ---------------------------------------------------------------
// Projections
// ---------------------------------------------------------------

/// The texts of the `Text` blocks among `bs`, in order.
pub open spec fn text_blocks(bs: Seq<ContentView>) -> Seq<Seq<char>>
    decreases bs.len(),
{
    if bs.len() == 0 {
        Seq::empty()
    } else {
        let rest = text_blocks(bs.drop_last());
        match bs.last() {
            ContentView::Text { text } => rest.push(text),
            _ => rest,
        }
    }
}

/// The displayable texts of a record.
pub open spec fn fragments(m: SessionMessageView) -> Seq<Seq<char>> {
    match m {
        SessionMessageView::Summary { summary, .. } => seq![summary],
        SessionMessageView::System { content, .. } => seq![content],
        SessionMessageView::User { message, .. } => match message.content {
            UserContentView::String(s) => seq![s],
            UserContentView::Array(bs) => text_blocks(bs),
        },
        SessionMessageView::Assistant { message, .. } => text_blocks(message.content),
    }
}

/// The name of a record's kind.
pub open spec fn kind_name(m: SessionMessageView) -> Seq<char> {
    match m {
        SessionMessageView::Summary { .. } => "summary"@,
        SessionMessageView::System { .. } => "system"@,
        SessionMessageView::User { .. } => "user"@,
        SessionMessageView::Assistant { .. } => "assistant"@,
    }
}

/// A record's timestamp; a summary has none.
pub open spec fn timestamp_of(m: SessionMessageView) -> Option<Seq<char>> {
    match m {
        SessionMessageView::Summary { .. } => None,
        SessionMessageView::System { base, .. } => Some(base.timestamp),
        SessionMessageView::User { base, .. } => Some(base.timestamp),
        SessionMessageView::Assistant { base, .. } => Some(base.timestamp),
    }
}

fn collect_text_blocks(bs: &Vec<Content>) -> (r: Vec<String>)
    ensures
        r.deep_view() == text_blocks(bs.deep_view()),
{
    let ghost all = bs.deep_view();
    let mut out: Vec<String> = Vec::new();
    let mut i: usize = 0;
    assert(all.subrange(0, 0) =~= Seq::<ContentView>::empty());
    while i < bs.len()
        invariant
            i <= bs.len(),
            all == bs.deep_view(),
            out.deep_view() == text_blocks(all.subrange(0, i as int)),
        decreases bs.len() - i,
    {
        assert(all.subrange(0, i + 1).drop_last() =~= all.subrange(0, i as int));
        match &bs[i] {
            Content::Text { text } => {
                out.push(text.clone());
                assert(out.deep_view() =~= text_blocks(all.subrange(0, i as int)).push(text@));
            },
            _ => {},
        }
        i = i + 1;
    }
    assert(all.subrange(0, bs.len() as int) =~= all);
    out
}

impl SessionMessage {
    /// The record's kind: "summary", "system", "user" or "assistant".
    pub fn get_type(&self) -> (r: &'static str)
        ensures
            r@ == kind_name(self.deep_view()),
    {
        match self {
            SessionMessage::Summary { .. } => "summary",
            SessionMessage::System { .. } => "system",
            SessionMessage::User { .. } => "user",
            SessionMessage::Assistant { .. } => "assistant",
        }
    }

    /// The record's timestamp; `None` for a summary.
    pub fn get_timestamp(&self) -> (r: Option<&str>)
        ensures
            match r {
                Some(t) => timestamp_of(self.deep_view()) == Some(t@),
                None => timestamp_of(self.deep_view()) is None,
            },
    {
        match self {
            SessionMessage::Summary { .. } => None,
            SessionMessage::System { base, .. } => Some(base.timestamp.as_str()),
            SessionMessage::User { base, .. } => Some(base.timestamp.as_str()),
            SessionMessage::Assistant { base, .. } => Some(base.timestamp.as_str()),
        }
    }

    /// The record's displayable texts, in order.
    pub fn get_text_content(&self) -> (r: Vec<String>)
        ensures
            r.deep_view() == fragments(self.deep_view()),
    {
        match self {
            SessionMessage::Summary { summary, .. } => {
                let r = vec![summary.clone()];
                assert(r.deep_view() =~= fragments(self.deep_view()));
                r
            },
            SessionMessage::System { content, .. } => {
                let r = vec![content.clone()];
                assert(r.deep_view() =~= fragments(self.deep_view()));
                r
            },
            SessionMessage::User { message, .. } => match &message.content {
                UserContent::String(s) => {
                    let r = vec![s.clone()];
                    assert(r.deep_view() =~= fragments(self.deep_view()));
                    r
                },
                UserContent::Array(bs) => collect_text_blocks(bs),
            },
            SessionMessage::Assistant { message, .. } => collect_text_blocks(&message.content),
        }
    }
}

// ---------------------------------------------------------------
// Projects
// ---------------------------------------------------------------

/// The records of one log file, with the name derived from its path.
pub struct ProjectFile {
    pub path: String,
    pub project_name: String,
    pub messages: Vec<SessionMessage>,
}

pub struct ProjectFileView {
    pub path: Seq<char>,
    pub project_name: Seq<char>,
    pub messages: Seq<SessionMessageView>,
}

impl DeepView for ProjectFile {
    type V = ProjectFileView;

    open spec fn deep_view(&self) -> ProjectFileView {
        ProjectFileView {
            path: self.path@,
            project_name: self.project_name@,
            messages: self.messages.deep_view(),
        }
    }
}

impl ProjectFile {
    /// A project with no records yet for the file at `path`.
    pub fn new(path: String) -> (r: Self)
        ensures
            r.path@ == path@,
            r.project_name@ == project_name_of(path@),
            r.messages@.len() == 0,
    {
        let project_name = Self::extract_project_name(path.as_str());
        ProjectFile { path, project_name, messages: Vec::new() }
    }

    /// The parent directory's name of the file at `path`, or "unknown".
    pub fn extract_project_name(path: &str) -> (r: String)
        ensures
            r@ == project_name_of(path@),
    {
        project_name(path)
    }
}

} // verus!
