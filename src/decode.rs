use vstd::prelude::*;
use crate::json::{Json, JsonView, as_array, as_object, copy_json, field, field_of};
use crate::types::copy_entries;
use crate::types::{
    AssistantMessage, AssistantMessageView, BaseMessage, BaseMessageView, Content, ContentView,
    ImageContent, ImageContentView, ImageSource, ImageSourceView, ServerToolUse, ServerToolUseView,
    SessionMessage, SessionMessageView, TextContent, TextContentView, ToolResultContent,
    ToolResultContentView, Usage, UsageView, UserContent, UserContentView, UserMessage,
    UserMessageView,
};

verus! {

// ---------------------------------------------------------------
// What a JSON value decodes to
// ---------------------------------------------------------------

/// A required string field.
pub open spec fn text_field(es: Seq<(Seq<char>, JsonView)>, k: Seq<char>) -> Option<Seq<char>> {
    match field_of(es, k) {
        Some(JsonView::Str(s)) => Some(s),
        _ => None,
    }
}

/// An optional string field: absent or null gives `Some(None)`; a value of
/// another kind fails the decode.
pub open spec fn opt_text_field(es: Seq<(Seq<char>, JsonView)>, k: Seq<char>) -> Option<
    Option<Seq<char>>,
> {
    match field_of(es, k) {
        None => Some(None),
        Some(JsonView::Null) => Some(None),
        Some(JsonView::Str(s)) => Some(Some(s)),
        _ => None,
    }
}

/// A required boolean field.
pub open spec fn bool_field(es: Seq<(Seq<char>, JsonView)>, k: Seq<char>) -> Option<bool> {
    match field_of(es, k) {
        Some(JsonView::Bool(b)) => Some(b),
        _ => None,
    }
}

/// An optional boolean field.
pub open spec fn opt_bool_field(es: Seq<(Seq<char>, JsonView)>, k: Seq<char>) -> Option<
    Option<bool>,
> {
    match field_of(es, k) {
        None => Some(None),
        Some(JsonView::Null) => Some(None),
        Some(JsonView::Bool(b)) => Some(Some(b)),
        _ => None,
    }
}

/// A required count field.
pub open spec fn uint_field(es: Seq<(Seq<char>, JsonView)>, k: Seq<char>) -> Option<u64> {
    match field_of(es, k) {
        Some(JsonView::Uint(n)) => Some(n),
        _ => None,
    }
}

/// An optional field of any JSON value.
pub open spec fn opt_json_field(es: Seq<(Seq<char>, JsonView)>, k: Seq<char>) -> Option<JsonView> {
    match field_of(es, k) {
        None => None,
        Some(JsonView::Null) => None,
        Some(v) => Some(v),
    }
}

/// Decodes every item with `f`; fails where any item fails.
pub open spec fn each_of<T>(items: Seq<JsonView>, f: spec_fn(JsonView) -> Option<T>) -> Option<
    Seq<T>,
>
    decreases items.len(),
{
    if items.len() == 0 {
        Some(Seq::empty())
    } else {
        match (each_of(items.drop_last(), f), f(items.last())) {
            (Some(a), Some(b)) => Some(a.push(b)),
            _ => None,
        }
    }
}

/// Where a prefix of the items fails, all of them fail.
pub proof fn lemma_each_of_prefix_fails<T>(
    items: Seq<JsonView>,
    n: int,
    f: spec_fn(JsonView) -> Option<T>,
)
    requires
        0 <= n <= items.len(),
        each_of(items.subrange(0, n), f) is None,
    ensures
        each_of(items, f) is None,
    decreases items.len() - n,
{
    if n < items.len() {
        assert(items.subrange(0, n + 1).drop_last() =~= items.subrange(0, n));
        lemma_each_of_prefix_fails(items, n + 1, f);
    } else {
        assert(items.subrange(0, n) =~= items);
    }
}

pub open spec fn image_source_of(j: JsonView) -> Option<ImageSourceView> {
    match j {
        JsonView::Object(es) => match (
            text_field(es, "type"@),
            opt_text_field(es, "data"@),
            opt_text_field(es, "media_type"@),
        ) {
            (Some(t), Some(d), Some(m)) => Some(
                ImageSourceView { source_type: t, data: d, media_type: m },
            ),
            _ => None,
        },
        _ => None,
    }
}

pub open spec fn text_content_of(j: JsonView) -> Option<TextContentView> {
    match j {
        JsonView::Object(es) => match (text_field(es, "type"@), text_field(es, "text"@)) {
            (Some(t), Some(x)) => Some(TextContentView { content_type: t, text: x }),
            _ => None,
        },
        _ => None,
    }
}

pub open spec fn image_content_of(j: JsonView) -> Option<ImageContentView> {
    match j {
        JsonView::Object(es) => match (text_field(es, "type"@), field_of(es, "source"@)) {
            (Some(t), Some(s)) => match image_source_of(s) {
                Some(src) => Some(ImageContentView { content_type: t, source: src }),
                None => None,
            },
            _ => None,
        },
        _ => None,
    }
}

pub open spec fn text_content_of_fn() -> spec_fn(JsonView) -> Option<TextContentView> {
    |j: JsonView| text_content_of(j)
}

pub open spec fn texts_of(items: Seq<JsonView>) -> Option<Seq<TextContentView>> {
    each_of(items, text_content_of_fn())
}

pub open spec fn image_content_of_fn() -> spec_fn(JsonView) -> Option<ImageContentView> {
    |j: JsonView| image_content_of(j)
}

pub open spec fn images_of(items: Seq<JsonView>) -> Option<Seq<ImageContentView>> {
    each_of(items, image_content_of_fn())
}

/// A tool result payload: a string, else an array of text items, else an
/// array of image items; the first shape that fits wins.
pub open spec fn tool_result_content_of(j: JsonView) -> Option<ToolResultContentView> {
    match j {
        JsonView::Str(s) => Some(ToolResultContentView::String(s)),
        JsonView::Array(items) => match texts_of(items) {
            Some(t) => Some(ToolResultContentView::TextArray(t)),
            None => match images_of(items) {
                Some(i) => Some(ToolResultContentView::ImageArray(i)),
                None => None,
            },
        },
        _ => None,
    }
}

/// A content block, told apart by its `type` field.
pub open spec fn content_of(j: JsonView) -> Option<ContentView> {
    match j {
        JsonView::Object(es) => match text_field(es, "type"@) {
            Some(tag) => if tag == "text"@ {
                match text_field(es, "text"@) {
                    Some(t) => Some(ContentView::Text { text: t }),
                    None => None,
                }
            } else if tag == "tool_use"@ {
                match (text_field(es, "id"@), text_field(es, "name"@), field_of(es, "input"@)) {
                    (Some(id), Some(name), Some(JsonView::Object(input))) => Some(
                        ContentView::ToolUse { id, name, input },
                    ),
                    _ => None,
                }
            } else if tag == "tool_result"@ {
                match (text_field(es, "tool_use_id"@), opt_bool_field(es, "is_error"@)) {
                    (Some(id), Some(is_error)) => match opt_json_field(es, "content"@) {
                        None => Some(
                            ContentView::ToolResult { tool_use_id: id, content: None, is_error },
                        ),
                        Some(c) => match tool_result_content_of(c) {
                            Some(cv) => Some(
                                ContentView::ToolResult {
                                    tool_use_id: id,
                                    content: Some(cv),
                                    is_error,
                                },
                            ),
                            None => None,
                        },
                    },
                    _ => None,
                }
            } else if tag == "thinking"@ {
                match (text_field(es, "thinking"@), text_field(es, "signature"@)) {
                    (Some(t), Some(s)) => Some(ContentView::Thinking { thinking: t, signature: s }),
                    _ => None,
                }
            } else if tag == "image"@ {
                match field_of(es, "source"@) {
                    Some(s) => match image_source_of(s) {
                        Some(src) => Some(ContentView::Image { source: src }),
                        None => None,
                    },
                    None => None,
                }
            } else {
                None
            },
            None => None,
        },
        _ => None,
    }
}

pub open spec fn content_of_fn() -> spec_fn(JsonView) -> Option<ContentView> {
    |j: JsonView| content_of(j)
}

pub open spec fn blocks_of(items: Seq<JsonView>) -> Option<Seq<ContentView>> {
    each_of(items, content_of_fn())
}

pub open spec fn server_tool_use_of(j: JsonView) -> Option<ServerToolUseView> {
    match j {
        JsonView::Object(es) => match uint_field(es, "web_search_requests"@) {
            Some(n) => Some(ServerToolUseView { web_search_requests: n }),
            None => None,
        },
        _ => None,
    }
}

pub open spec fn usage_of(j: JsonView) -> Option<UsageView> {
    match j {
        JsonView::Object(es) => match (
            uint_field(es, "input_tokens"@),
            uint_field(es, "cache_creation_input_tokens"@),
            uint_field(es, "cache_read_input_tokens"@),
            uint_field(es, "output_tokens"@),
            opt_text_field(es, "service_tier"@),
        ) {
            (Some(a), Some(b), Some(c), Some(d), Some(tier)) => {
                let u = UsageView {
                    input_tokens: a,
                    cache_creation_input_tokens: b,
                    cache_read_input_tokens: c,
                    output_tokens: d,
                    service_tier: tier,
                    server_tool_use: None,
                };
                match opt_json_field(es, "server_tool_use"@) {
                    None => Some(u),
                    Some(s) => match server_tool_use_of(s) {
                        Some(sv) => Some(UsageView { server_tool_use: Some(sv), ..u }),
                        None => None,
                    },
                }
            },
            _ => None,
        },
        _ => None,
    }
}

/// The shared fields of a conversational record, held at the record's top
/// level.
pub open spec fn base_of(es: Seq<(Seq<char>, JsonView)>) -> Option<BaseMessageView> {
    match (
        opt_text_field(es, "parentUuid"@),
        bool_field(es, "isSidechain"@),
        text_field(es, "userType"@),
        text_field(es, "cwd"@),
        text_field(es, "sessionId"@),
        text_field(es, "version"@),
        text_field(es, "uuid"@),
        text_field(es, "timestamp"@),
    ) {
        (Some(p), Some(sc), Some(ut), Some(cwd), Some(sid), Some(v), Some(id), Some(ts)) => Some(
            BaseMessageView {
                parent_uuid: p,
                is_sidechain: sc,
                user_type: ut,
                cwd,
                session_id: sid,
                version: v,
                uuid: id,
                timestamp: ts,
            },
        ),
        _ => None,
    }
}

pub open spec fn user_message_of(j: JsonView) -> Option<UserMessageView> {
    match j {
        JsonView::Object(es) => match (text_field(es, "role"@), field_of(es, "content"@)) {
            (Some(role), Some(JsonView::Str(s))) => Some(
                UserMessageView { role, content: UserContentView::String(s) },
            ),
            (Some(role), Some(JsonView::Array(items))) => match blocks_of(items) {
                Some(b) => Some(UserMessageView { role, content: UserContentView::Array(b) }),
                None => None,
            },
            _ => None,
        },
        _ => None,
    }
}

pub open spec fn assistant_message_of(j: JsonView) -> Option<AssistantMessageView> {
    match j {
        JsonView::Object(es) => match (
            text_field(es, "id"@),
            text_field(es, "type"@),
            text_field(es, "role"@),
            text_field(es, "model"@),
            field_of(es, "content"@),
            opt_text_field(es, "stop_reason"@),
            opt_text_field(es, "stop_sequence"@),
            field_of(es, "usage"@),
        ) {
            (
                Some(id),
                Some(t),
                Some(role),
                Some(model),
                Some(JsonView::Array(items)),
                Some(sr),
                Some(ss),
                Some(u),
            ) => match (blocks_of(items), usage_of(u)) {
                (Some(b), Some(uv)) => Some(
                    AssistantMessageView {
                        id,
                        message_type: t,
                        role,
                        model,
                        content: b,
                        stop_reason: sr,
                        stop_sequence: ss,
                        usage: uv,
                    },
                ),
                _ => None,
            },
            _ => None,
        },
        _ => None,
    }
}

/// A whole record, told apart by its `type` field. A conversational record
/// with an empty timestamp is refused.
pub open spec fn message_of(j: JsonView) -> Option<SessionMessageView> {
    match j {
        JsonView::Object(es) => match text_field(es, "type"@) {
            Some(tag) => if tag == "summary"@ {
                match (text_field(es, "summary"@), text_field(es, "leafUuid"@)) {
                    (Some(s), Some(l)) => Some(SessionMessageView::Summary { summary: s, leaf_uuid: l }),
                    _ => None,
                }
            } else {
                match base_of(es) {
                    Some(base) => if base.timestamp.len() == 0 {
                        None
                    } else {
                        conversational_of(tag, base, es)
                    },
                    None => None,
                }
            },
            None => None,
        },
        _ => None,
    }
}

/// The variant-specific fields of a conversational record.
pub open spec fn conversational_of(
    tag: Seq<char>,
    base: BaseMessageView,
    es: Seq<(Seq<char>, JsonView)>,
) -> Option<SessionMessageView> {
    if tag == "system"@ {
        match (
            text_field(es, "content"@),
            bool_field(es, "isMeta"@),
            opt_text_field(es, "toolUseID"@),
            opt_text_field(es, "level"@),
            opt_text_field(es, "gitBranch"@),
            opt_text_field(es, "requestId"@),
        ) {
            (Some(c), Some(m), Some(t), Some(l), Some(g), Some(r)) => Some(
                SessionMessageView::System {
                    base,
                    content: c,
                    is_meta: m,
                    tool_use_id: t,
                    level: l,
                    git_branch: g,
                    request_id: r,
                },
            ),
            _ => None,
        }
    } else if tag == "user"@ {
        match (
            field_of(es, "message"@),
            opt_text_field(es, "gitBranch"@),
            opt_bool_field(es, "isMeta"@),
            opt_bool_field(es, "isCompactSummary"@),
        ) {
            (Some(m), Some(g), Some(im), Some(ic)) => match user_message_of(m) {
                Some(mv) => Some(
                    SessionMessageView::User {
                        base,
                        message: mv,
                        git_branch: g,
                        is_meta: im,
                        is_compact_summary: ic,
                        tool_use_result: opt_json_field(es, "toolUseResult"@),
                    },
                ),
                None => None,
            },
            _ => None,
        }
    } else if tag == "assistant"@ {
        match (
            field_of(es, "message"@),
            opt_text_field(es, "requestId"@),
            opt_text_field(es, "gitBranch"@),
            opt_bool_field(es, "isApiErrorMessage"@),
        ) {
            (Some(m), Some(r), Some(g), Some(e)) => match assistant_message_of(m) {
                Some(mv) => Some(
                    SessionMessageView::Assistant {
                        base,
                        message: mv,
                        request_id: r,
                        git_branch: g,
                        is_api_error_message: e,
                    },
                ),
                None => None,
            },
            _ => None,
        }
    } else {
        None
    }
}

// ---------------------------------------------------------------
// Decoding
// ---------------------------------------------------------------

fn get_text(es: &Vec<(String, Json)>, k: &str) -> (r: Option<String>)
    ensures
        r.deep_view() == text_field(es.deep_view(), k@),
{
    match field(es, k) {
        Some(Json::Str(s)) => Some(s.clone()),
        _ => None,
    }
}

fn get_opt_text(es: &Vec<(String, Json)>, k: &str) -> (r: Option<Option<String>>)
    ensures
        r.deep_view() == opt_text_field(es.deep_view(), k@),
{
    match field(es, k) {
        None => Some(None),
        Some(Json::Null) => Some(None),
        Some(Json::Str(s)) => Some(Some(s.clone())),
        _ => None,
    }
}

fn get_bool(es: &Vec<(String, Json)>, k: &str) -> (r: Option<bool>)
    ensures
        r == bool_field(es.deep_view(), k@),
{
    match field(es, k) {
        Some(Json::Bool(b)) => Some(*b),
        _ => None,
    }
}

fn get_opt_bool(es: &Vec<(String, Json)>, k: &str) -> (r: Option<Option<bool>>)
    ensures
        r == opt_bool_field(es.deep_view(), k@),
{
    match field(es, k) {
        None => Some(None),
        Some(Json::Null) => Some(None),
        Some(Json::Bool(b)) => Some(Some(*b)),
        _ => None,
    }
}

fn get_uint(es: &Vec<(String, Json)>, k: &str) -> (r: Option<u64>)
    ensures
        r == uint_field(es.deep_view(), k@),
{
    match field(es, k) {
        Some(Json::Uint(n)) => Some(*n),
        _ => None,
    }
}

fn get_opt_json<'a>(es: &'a Vec<(String, Json)>, k: &str) -> (r: Option<&'a Json>)
    ensures
        r.deep_view() == opt_json_field(es.deep_view(), k@),
{
    match field(es, k) {
        None => None,
        Some(Json::Null) => None,
        Some(v) => Some(v),
    }
}

/// Whether `s` holds exactly the characters of `lit`.
fn is_text(s: &String, lit: &str) -> (r: bool)
    ensures
        r == (s@ == lit@),
{
    *s == lit.to_owned()
}

fn decode_image_source(j: &Json) -> (r: Option<ImageSource>)
    ensures
        r.deep_view() == image_source_of(j.deep_view()),
{
    let es = as_object(j)?;
    let t = get_text(es, "type")?;
    let d = get_opt_text(es, "data")?;
    let m = get_opt_text(es, "media_type")?;
    Some(ImageSource { source_type: t, data: d, media_type: m })
}

fn decode_text_content(j: &Json) -> (r: Option<TextContent>)
    ensures
        r.deep_view() == text_content_of(j.deep_view()),
{
    let es = as_object(j)?;
    let t = get_text(es, "type")?;
    let x = get_text(es, "text")?;
    Some(TextContent { content_type: t, text: x })
}

fn decode_image_content(j: &Json) -> (r: Option<ImageContent>)
    ensures
        r.deep_view() == image_content_of(j.deep_view()),
{
    let es = as_object(j)?;
    let t = get_text(es, "type")?;
    let s = field(es, "source")?;
    let src = decode_image_source(s)?;
    Some(ImageContent { content_type: t, source: src })
}

fn decode_texts(items: &Vec<Json>) -> (r: Option<Vec<TextContent>>)
    ensures
        r.deep_view() == texts_of(items.deep_view()),
{
    let ghost all = items.deep_view();
    let mut out: Vec<TextContent> = Vec::new();
    let mut i: usize = 0;
    assert(all.subrange(0, 0) =~= Seq::<JsonView>::empty());
    while i < items.len()
        invariant
            i <= items.len(),
            all == items.deep_view(),
            texts_of(all.subrange(0, i as int)) == Some(out.deep_view()),
        decreases items.len() - i,
    {
        let ghost prefix = all.subrange(0, i + 1);
        assert(prefix.drop_last() =~= all.subrange(0, i as int));
        assert(prefix.last() == items[i as int].deep_view());
        match decode_text_content(&items[i]) {
            Some(x) => {
                out.push(x);
                assert(out.deep_view() =~= texts_of(all.subrange(0, i as int))->0.push(
                    text_content_of(items[i as int].deep_view())->0,
                ));
            },
            None => {
                proof {
                    lemma_each_of_prefix_fails(all, i + 1, text_content_of_fn());
                }
                return None;
            },
        }
        i = i + 1;
    }
    assert(all.subrange(0, items.len() as int) =~= all);
    Some(out)
}

fn decode_images(items: &Vec<Json>) -> (r: Option<Vec<ImageContent>>)
    ensures
        r.deep_view() == images_of(items.deep_view()),
{
    let ghost all = items.deep_view();
    let mut out: Vec<ImageContent> = Vec::new();
    let mut i: usize = 0;
    assert(all.subrange(0, 0) =~= Seq::<JsonView>::empty());
    while i < items.len()
        invariant
            i <= items.len(),
            all == items.deep_view(),
            images_of(all.subrange(0, i as int)) == Some(out.deep_view()),
        decreases items.len() - i,
    {
        let ghost prefix = all.subrange(0, i + 1);
        assert(prefix.drop_last() =~= all.subrange(0, i as int));
        assert(prefix.last() == items[i as int].deep_view());
        match decode_image_content(&items[i]) {
            Some(x) => {
                out.push(x);
                assert(out.deep_view() =~= images_of(all.subrange(0, i as int))->0.push(
                    image_content_of(items[i as int].deep_view())->0,
                ));
            },
            None => {
                proof {
                    lemma_each_of_prefix_fails(all, i + 1, image_content_of_fn());
                }
                return None;
            },
        }
        i = i + 1;
    }
    assert(all.subrange(0, items.len() as int) =~= all);
    Some(out)
}

fn decode_tool_result_content(j: &Json) -> (r: Option<ToolResultContent>)
    ensures
        r.deep_view() == tool_result_content_of(j.deep_view()),
{
    match j {
        Json::Str(s) => Some(ToolResultContent::String(s.clone())),
        Json::Array(_) => {
            let items = as_array(j)?;
            match decode_texts(items) {
                Some(t) => Some(ToolResultContent::TextArray(t)),
                None => match decode_images(items) {
                    Some(i) => Some(ToolResultContent::ImageArray(i)),
                    None => None,
                },
            }
        },
        _ => None,
    }
}

fn decode_content(j: &Json) -> (r: Option<Content>)
    ensures
        r.deep_view() == content_of(j.deep_view()),
{
    let es = as_object(j)?;
    let tag = get_text(es, "type")?;
    if is_text(&tag, "text") {
        let t = get_text(es, "text")?;
        Some(Content::Text { text: t })
    } else if is_text(&tag, "tool_use") {
        let id = get_text(es, "id")?;
        let name = get_text(es, "name")?;
        let input = field(es, "input")?;
        let entries = as_object(input)?;
        Some(Content::ToolUse { id, name, input: copy_entries(entries) })
    } else if is_text(&tag, "tool_result") {
        let id = get_text(es, "tool_use_id")?;
        let is_error = get_opt_bool(es, "is_error")?;
        match get_opt_json(es, "content") {
            None => Some(Content::ToolResult { tool_use_id: id, content: None, is_error }),
            Some(c) => {
                let cv = decode_tool_result_content(c)?;
                Some(Content::ToolResult { tool_use_id: id, content: Some(cv), is_error })
            },
        }
    } else if is_text(&tag, "thinking") {
        let t = get_text(es, "thinking")?;
        let s = get_text(es, "signature")?;
        Some(Content::Thinking { thinking: t, signature: s })
    } else if is_text(&tag, "image") {
        let s = field(es, "source")?;
        let src = decode_image_source(s)?;
        Some(Content::Image { source: src })
    } else {
        None
    }
}

fn decode_blocks(items: &Vec<Json>) -> (r: Option<Vec<Content>>)
    ensures
        r.deep_view() == blocks_of(items.deep_view()),
{
    let ghost all = items.deep_view();
    let mut out: Vec<Content> = Vec::new();
    let mut i: usize = 0;
    assert(all.subrange(0, 0) =~= Seq::<JsonView>::empty());
    while i < items.len()
        invariant
            i <= items.len(),
            all == items.deep_view(),
            blocks_of(all.subrange(0, i as int)) == Some(out.deep_view()),
        decreases items.len() - i,
    {
        let ghost prefix = all.subrange(0, i + 1);
        assert(prefix.drop_last() =~= all.subrange(0, i as int));
        assert(prefix.last() == items[i as int].deep_view());
        match decode_content(&items[i]) {
            Some(x) => {
                out.push(x);
                assert(out.deep_view() =~= blocks_of(all.subrange(0, i as int))->0.push(
                    content_of(items[i as int].deep_view())->0,
                ));
            },
            None => {
                proof {
                    lemma_each_of_prefix_fails(all, i + 1, content_of_fn());
                }
                return None;
            },
        }
        i = i + 1;
    }
    assert(all.subrange(0, items.len() as int) =~= all);
    Some(out)
}

fn decode_server_tool_use(j: &Json) -> (r: Option<ServerToolUse>)
    ensures
        r.deep_view() == server_tool_use_of(j.deep_view()),
{
    let es = as_object(j)?;
    let n = get_uint(es, "web_search_requests")?;
    Some(ServerToolUse { web_search_requests: n })
}

fn decode_usage(j: &Json) -> (r: Option<Usage>)
    ensures
        r.deep_view() == usage_of(j.deep_view()),
{
    let es = as_object(j)?;
    let a = get_uint(es, "input_tokens")?;
    let b = get_uint(es, "cache_creation_input_tokens")?;
    let c = get_uint(es, "cache_read_input_tokens")?;
    let d = get_uint(es, "output_tokens")?;
    let tier = get_opt_text(es, "service_tier")?;
    let server_tool_use = match get_opt_json(es, "server_tool_use") {
        None => None,
        Some(s) => Some(decode_server_tool_use(s)?),
    };
    Some(Usage {
        input_tokens: a,
        cache_creation_input_tokens: b,
        cache_read_input_tokens: c,
        output_tokens: d,
        service_tier: tier,
        server_tool_use,
    })
}

fn decode_base(es: &Vec<(String, Json)>) -> (r: Option<BaseMessage>)
    ensures
        r.deep_view() == base_of(es.deep_view()),
{
    let p = get_opt_text(es, "parentUuid")?;
    let sc = get_bool(es, "isSidechain")?;
    let ut = get_text(es, "userType")?;
    let cwd = get_text(es, "cwd")?;
    let sid = get_text(es, "sessionId")?;
    let v = get_text(es, "version")?;
    let id = get_text(es, "uuid")?;
    let ts = get_text(es, "timestamp")?;
    Some(BaseMessage {
        parent_uuid: p,
        is_sidechain: sc,
        user_type: ut,
        cwd,
        session_id: sid,
        version: v,
        uuid: id,
        timestamp: ts,
    })
}

fn decode_user_message(j: &Json) -> (r: Option<UserMessage>)
    ensures
        r.deep_view() == user_message_of(j.deep_view()),
{
    let es = as_object(j)?;
    let role = get_text(es, "role")?;
    let c = field(es, "content")?;
    match c {
        Json::Str(s) => Some(UserMessage { role, content: UserContent::String(s.clone()) }),
        Json::Array(_) => {
            let items = as_array(c)?;
            let b = decode_blocks(items)?;
            Some(UserMessage { role, content: UserContent::Array(b) })
        },
        _ => None,
    }
}

fn decode_assistant_message(j: &Json) -> (r: Option<AssistantMessage>)
    ensures
        r.deep_view() == assistant_message_of(j.deep_view()),
{
    let es = as_object(j)?;
    let id = get_text(es, "id")?;
    let t = get_text(es, "type")?;
    let role = get_text(es, "role")?;
    let model = get_text(es, "model")?;
    let c = field(es, "content")?;
    let items = as_array(c)?;
    let sr = get_opt_text(es, "stop_reason")?;
    let ss = get_opt_text(es, "stop_sequence")?;
    let u = field(es, "usage")?;
    let b = decode_blocks(items)?;
    let uv = decode_usage(u)?;
    Some(AssistantMessage {
        id,
        message_type: t,
        role,
        model,
        content: b,
        stop_reason: sr,
        stop_sequence: ss,
        usage: uv,
    })
}

fn decode_conversational(tag: &String, base: BaseMessage, es: &Vec<(String, Json)>) -> (r: Option<
    SessionMessage,
>)
    ensures
        r.deep_view() == conversational_of(tag@, base.deep_view(), es.deep_view()),
{
    if is_text(tag, "system") {
        let c = get_text(es, "content")?;
        let m = get_bool(es, "isMeta")?;
        let t = get_opt_text(es, "toolUseID")?;
        let l = get_opt_text(es, "level")?;
        let g = get_opt_text(es, "gitBranch")?;
        let r = get_opt_text(es, "requestId")?;
        Some(SessionMessage::System {
            base,
            content: c,
            is_meta: m,
            tool_use_id: t,
            level: l,
            git_branch: g,
            request_id: r,
        })
    } else if is_text(tag, "user") {
        let m = field(es, "message")?;
        let g = get_opt_text(es, "gitBranch")?;
        let im = get_opt_bool(es, "isMeta")?;
        let ic = get_opt_bool(es, "isCompactSummary")?;
        let mv = decode_user_message(m)?;
        let tool_use_result = match get_opt_json(es, "toolUseResult") {
            Some(v) => Some(copy_json(v)),
            None => None,
        };
        Some(SessionMessage::User {
            base,
            message: mv,
            git_branch: g,
            is_meta: im,
            is_compact_summary: ic,
            tool_use_result,
        })
    } else if is_text(tag, "assistant") {
        let m = field(es, "message")?;
        let r = get_opt_text(es, "requestId")?;
        let g = get_opt_text(es, "gitBranch")?;
        let e = get_opt_bool(es, "isApiErrorMessage")?;
        let mv = decode_assistant_message(m)?;
        Some(SessionMessage::Assistant {
            base,
            message: mv,
            request_id: r,
            git_branch: g,
            is_api_error_message: e,
        })
    } else {
        None
    }
}

/// Decodes one record from a JSON value.
pub fn decode_message(j: &Json) -> (r: Option<SessionMessage>)
    ensures
        r.deep_view() == message_of(j.deep_view()),
{
    let es = as_object(j)?;
    let tag = get_text(es, "type")?;
    if is_text(&tag, "summary") {
        let s = get_text(es, "summary")?;
        let l = get_text(es, "leafUuid")?;
        Some(SessionMessage::Summary { summary: s, leaf_uuid: l })
    } else {
        let base = decode_base(es)?;
        if base.timestamp.as_str().is_empty() {
            None
        } else {
            decode_conversational(&tag, base, es)
        }
    }
}

} // verus!
