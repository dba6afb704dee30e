use vstd::prelude::*;
use crate::decode::{
    assistant_message_of, base_of, blocks_of, content_of, content_of_fn, each_of, image_content_of,
    image_content_of_fn, opt_json_field, image_source_of, images_of, lemma_each_of_prefix_fails, message_of,
    server_tool_use_of, text_content_of, text_content_of_fn, texts_of, tool_result_content_of,
    usage_of, user_message_of,
};
use crate::json::{JsonView, field_of};
use crate::types::{
    AssistantMessageView, BaseMessageView, ContentView, ImageContentView, ImageSourceView,
    ServerToolUseView, SessionMessageView, TextContentView, ToolResultContentView, UsageView,
    UserContentView, UserMessageView,
};

verus! {

/// Looking a key up in entries with one more entry at the end: the earlier
/// entries win, and the new one counts only where none of them has the key.
pub broadcast proof fn lemma_field_of_push(
    es: Seq<(Seq<char>, JsonView)>,
    k: Seq<char>,
    v: JsonView,
    q: Seq<char>,
)
    ensures
        #[trigger] field_of(es.push((k, v)), q) == match field_of(es, q) {
            Some(x) => Some(x),
            None => if q == k {
                Some(v)
            } else {
                None
            },
        },
    decreases es.len(),
{
    let ext = es.push((k, v));
    assert(ext[0] == if es.len() == 0 { (k, v) } else { es[0] });
    if es.len() == 0 {
        assert(ext.drop_first() =~= Seq::<(Seq<char>, JsonView)>::empty());
        assert(field_of(ext.drop_first(), q) is None);
        assert(field_of(es, q) is None);
    } else {
        assert(ext.drop_first() =~= es.drop_first().push((k, v)));
        lemma_field_of_push(es.drop_first(), k, v, q);
    }
}

proof fn lemma_differ_at(a: Seq<char>, b: Seq<char>, i: int)
    requires
        0 <= i < a.len(),
        i < b.len(),
        a[i] != b[i],
    ensures
        a != b,
{
}

/// The lengths of the wire keys and tags, and which keys of equal length
/// differ.
pub proof fn lemma_wire_keys()
    ensures
        "type"@.len() == 4,
        "uuid"@.len() == 4,
        "text"@.len() == 4,
        "role"@.len() == 4,
        "name"@.len() == 4,
        "data"@.len() == 4,
        "user"@.len() == 4,
        "id"@.len() == 2,
        "cwd"@.len() == 3,
        "level"@.len() == 5,
        "model"@.len() == 5,
        "usage"@.len() == 5,
        "input"@.len() == 5,
        "image"@.len() == 5,
        "isMeta"@.len() == 6,
        "source"@.len() == 6,
        "system"@.len() == 6,
        "version"@.len() == 7,
        "content"@.len() == 7,
        "message"@.len() == 7,
        "summary"@.len() == 7,
        "userType"@.len() == 8,
        "leafUuid"@.len() == 8,
        "is_error"@.len() == 8,
        "thinking"@.len() == 8,
        "tool_use"@.len() == 8,
        "sessionId"@.len() == 9,
        "timestamp"@.len() == 9,
        "toolUseID"@.len() == 9,
        "gitBranch"@.len() == 9,
        "requestId"@.len() == 9,
        "signature"@.len() == 9,
        "assistant"@.len() == 9,
        "parentUuid"@.len() == 10,
        "media_type"@.len() == 10,
        "isSidechain"@.len() == 11,
        "stop_reason"@.len() == 11,
        "tool_use_id"@.len() == 11,
        "tool_result"@.len() == 11,
        "input_tokens"@.len() == 12,
        "service_tier"@.len() == 12,
        "stop_sequence"@.len() == 13,
        "output_tokens"@.len() == 13,
        "toolUseResult"@.len() == 13,
        "server_tool_use"@.len() == 15,
        "isCompactSummary"@.len() == 16,
        "isApiErrorMessage"@.len() == 17,
        "web_search_requests"@.len() == 19,
        "cache_read_input_tokens"@.len() == 23,
        "cache_creation_input_tokens"@.len() == 27,
        "type"@ != "uuid"@,
        "type"@ != "text"@,
        "type"@ != "role"@,
        "type"@ != "name"@,
        "type"@ != "data"@,
        "sessionId"@ != "timestamp"@,
        "sessionId"@ != "toolUseID"@,
        "sessionId"@ != "gitBranch"@,
        "sessionId"@ != "requestId"@,
        "timestamp"@ != "toolUseID"@,
        "timestamp"@ != "gitBranch"@,
        "timestamp"@ != "requestId"@,
        "toolUseID"@ != "gitBranch"@,
        "toolUseID"@ != "requestId"@,
        "gitBranch"@ != "requestId"@,
        "version"@ != "content"@,
        "version"@ != "message"@,
        "model"@ != "usage"@,
        "input_tokens"@ != "service_tier"@,
        "tool_use"@ != "thinking"@,
{
    reveal_strlit("type");
    reveal_strlit("uuid");
    reveal_strlit("text");
    reveal_strlit("role");
    reveal_strlit("name");
    reveal_strlit("data");
    reveal_strlit("user");
    reveal_strlit("id");
    reveal_strlit("cwd");
    reveal_strlit("level");
    reveal_strlit("model");
    reveal_strlit("usage");
    reveal_strlit("input");
    reveal_strlit("image");
    reveal_strlit("isMeta");
    reveal_strlit("source");
    reveal_strlit("system");
    reveal_strlit("version");
    reveal_strlit("content");
    reveal_strlit("message");
    reveal_strlit("summary");
    reveal_strlit("userType");
    reveal_strlit("leafUuid");
    reveal_strlit("is_error");
    reveal_strlit("thinking");
    reveal_strlit("tool_use");
    reveal_strlit("sessionId");
    reveal_strlit("timestamp");
    reveal_strlit("toolUseID");
    reveal_strlit("gitBranch");
    reveal_strlit("requestId");
    reveal_strlit("signature");
    reveal_strlit("assistant");
    reveal_strlit("parentUuid");
    reveal_strlit("media_type");
    reveal_strlit("isSidechain");
    reveal_strlit("stop_reason");
    reveal_strlit("tool_use_id");
    reveal_strlit("tool_result");
    reveal_strlit("input_tokens");
    reveal_strlit("service_tier");
    reveal_strlit("stop_sequence");
    reveal_strlit("output_tokens");
    reveal_strlit("toolUseResult");
    reveal_strlit("server_tool_use");
    reveal_strlit("isCompactSummary");
    reveal_strlit("isApiErrorMessage");
    reveal_strlit("web_search_requests");
    reveal_strlit("cache_read_input_tokens");
    reveal_strlit("cache_creation_input_tokens");
    lemma_differ_at("type"@, "uuid"@, 0);
    lemma_differ_at("type"@, "text"@, 2);
    lemma_differ_at("type"@, "role"@, 0);
    lemma_differ_at("type"@, "name"@, 0);
    lemma_differ_at("type"@, "data"@, 0);
    lemma_differ_at("sessionId"@, "timestamp"@, 0);
    lemma_differ_at("sessionId"@, "toolUseID"@, 0);
    lemma_differ_at("sessionId"@, "gitBranch"@, 0);
    lemma_differ_at("sessionId"@, "requestId"@, 0);
    lemma_differ_at("timestamp"@, "toolUseID"@, 1);
    lemma_differ_at("timestamp"@, "gitBranch"@, 0);
    lemma_differ_at("timestamp"@, "requestId"@, 0);
    lemma_differ_at("toolUseID"@, "gitBranch"@, 0);
    lemma_differ_at("toolUseID"@, "requestId"@, 0);
    lemma_differ_at("gitBranch"@, "requestId"@, 0);
    lemma_differ_at("version"@, "content"@, 0);
    lemma_differ_at("version"@, "message"@, 0);
    lemma_differ_at("model"@, "usage"@, 0);
    lemma_differ_at("input_tokens"@, "service_tier"@, 0);
    lemma_differ_at("tool_use"@, "thinking"@, 1);
}

// ---------------------------------------------------------------
// Wire form of each record shape
// ---------------------------------------------------------------

/// An optional text on the wire: the text, or null.
pub open spec fn opt_text_json(o: Option<Seq<char>>) -> JsonView {
    match o {
        Some(s) => JsonView::Str(s),
        None => JsonView::Null,
    }
}

/// An optional flag on the wire: the flag, or null.
pub open spec fn opt_bool_json(o: Option<bool>) -> JsonView {
    match o {
        Some(b) => JsonView::Bool(b),
        None => JsonView::Null,
    }
}

pub open spec fn image_source_json(s: ImageSourceView) -> JsonView {
    JsonView::Object(
        Seq::empty()
            .push(("type"@, JsonView::Str(s.source_type)))
            .push(("data"@, opt_text_json(s.data)))
            .push(("media_type"@, opt_text_json(s.media_type))),
    )
}

pub open spec fn text_content_json(t: TextContentView) -> JsonView {
    JsonView::Object(
        Seq::empty()
            .push(("type"@, JsonView::Str(t.content_type)))
            .push(("text"@, JsonView::Str(t.text))),
    )
}

pub open spec fn image_content_json(i: ImageContentView) -> JsonView {
    JsonView::Object(
        Seq::empty()
            .push(("type"@, JsonView::Str(i.content_type)))
            .push(("source"@, image_source_json(i.source))),
    )
}

pub open spec fn server_tool_use_json(s: ServerToolUseView) -> JsonView {
    JsonView::Object(
        Seq::empty().push(("web_search_requests"@, JsonView::Uint(s.web_search_requests))),
    )
}

pub open spec fn usage_json(u: UsageView) -> JsonView {
    let server_tool_use = match u.server_tool_use {
        Some(x) => server_tool_use_json(x),
        None => JsonView::Null,
    };
    JsonView::Object(
        Seq::empty()
            .push(("input_tokens"@, JsonView::Uint(u.input_tokens)))
            .push(("cache_creation_input_tokens"@, JsonView::Uint(u.cache_creation_input_tokens)))
            .push(("cache_read_input_tokens"@, JsonView::Uint(u.cache_read_input_tokens)))
            .push(("output_tokens"@, JsonView::Uint(u.output_tokens)))
            .push(("service_tier"@, opt_text_json(u.service_tier)))
            .push(("server_tool_use"@, server_tool_use)),
    )
}

// ---------------------------------------------------------------
// Round trips
// ---------------------------------------------------------------

proof fn lemma_image_source_round_trip(s: ImageSourceView)
    ensures
        image_source_of(image_source_json(s)) == Some(s),
{
    broadcast use lemma_field_of_push;
    lemma_wire_keys();
}

proof fn lemma_text_content_round_trip(t: TextContentView)
    ensures
        text_content_of(text_content_json(t)) == Some(t),
{
    broadcast use lemma_field_of_push;
    lemma_wire_keys();
}

proof fn lemma_image_content_round_trip(i: ImageContentView)
    ensures
        image_content_of(image_content_json(i)) == Some(i),
        text_content_of(image_content_json(i)) is None,
{
    broadcast use lemma_field_of_push;
    lemma_wire_keys();
    lemma_image_source_round_trip(i.source);
}

proof fn lemma_usage_round_trip(u: UsageView)
    ensures
        usage_of(usage_json(u)) == Some(u),
{
    broadcast use lemma_field_of_push;
    lemma_wire_keys();
    if let Some(x) = u.server_tool_use {
        assert(server_tool_use_of(server_tool_use_json(x)) == Some(x));
    }
}

pub open spec fn tool_result_content_json(c: ToolResultContentView) -> JsonView {
    match c {
        ToolResultContentView::String(s) => JsonView::Str(s),
        ToolResultContentView::TextArray(ts) => JsonView::Array(
            ts.map_values(|t: TextContentView| text_content_json(t)),
        ),
        ToolResultContentView::ImageArray(is) => JsonView::Array(
            is.map_values(|i: ImageContentView| image_content_json(i)),
        ),
    }
}

pub open spec fn content_json(b: ContentView) -> JsonView {
    match b {
        ContentView::Text { text } => JsonView::Object(
            Seq::empty().push(("type"@, JsonView::Str("text"@))).push(("text"@, JsonView::Str(text))),
        ),
        ContentView::ToolUse { id, name, input } => JsonView::Object(
            Seq::empty().push(("type"@, JsonView::Str("tool_use"@))).push(
                ("id"@, JsonView::Str(id)),
            ).push(("name"@, JsonView::Str(name))).push(("input"@, JsonView::Object(input))),
        ),
        ContentView::ToolResult { tool_use_id, content, is_error } => JsonView::Object(
            Seq::empty().push(("type"@, JsonView::Str("tool_result"@))).push(
                ("tool_use_id"@, JsonView::Str(tool_use_id)),
            ).push(
                (
                    "content"@,
                    match content {
                        Some(c) => tool_result_content_json(c),
                        None => JsonView::Null,
                    },
                ),
            ).push(("is_error"@, opt_bool_json(is_error))),
        ),
        ContentView::Thinking { thinking, signature } => JsonView::Object(
            Seq::empty().push(("type"@, JsonView::Str("thinking"@))).push(
                ("thinking"@, JsonView::Str(thinking)),
            ).push(("signature"@, JsonView::Str(signature))),
        ),
        ContentView::Image { source } => JsonView::Object(
            Seq::empty().push(("type"@, JsonView::Str("image"@))).push(
                ("source"@, image_source_json(source)),
            ),
        ),
    }
}

pub open spec fn blocks_json(bs: Seq<ContentView>) -> JsonView {
    JsonView::Array(bs.map_values(|b: ContentView| content_json(b)))
}

/// The shared fields on the wire, after the record's `type`.
pub open spec fn base_entries(tag: Seq<char>, b: BaseMessageView) -> Seq<(Seq<char>, JsonView)> {
    Seq::empty().push(("type"@, JsonView::Str(tag))).push(
        ("parentUuid"@, opt_text_json(b.parent_uuid)),
    ).push(("isSidechain"@, JsonView::Bool(b.is_sidechain))).push(
        ("userType"@, JsonView::Str(b.user_type)),
    ).push(("cwd"@, JsonView::Str(b.cwd))).push(("sessionId"@, JsonView::Str(b.session_id))).push(
        ("version"@, JsonView::Str(b.version)),
    ).push(("uuid"@, JsonView::Str(b.uuid))).push(("timestamp"@, JsonView::Str(b.timestamp)))
}

pub open spec fn user_message_json(m: UserMessageView) -> JsonView {
    JsonView::Object(
        Seq::empty().push(("role"@, JsonView::Str(m.role))).push(
            (
                "content"@,
                match m.content {
                    UserContentView::String(s) => JsonView::Str(s),
                    UserContentView::Array(bs) => blocks_json(bs),
                },
            ),
        ),
    )
}

pub open spec fn assistant_message_json(m: AssistantMessageView) -> JsonView {
    JsonView::Object(
        Seq::empty().push(("id"@, JsonView::Str(m.id))).push(
            ("type"@, JsonView::Str(m.message_type)),
        ).push(("role"@, JsonView::Str(m.role))).push(("model"@, JsonView::Str(m.model))).push(
            ("content"@, blocks_json(m.content)),
        ).push(("stop_reason"@, opt_text_json(m.stop_reason))).push(
            ("stop_sequence"@, opt_text_json(m.stop_sequence)),
        ).push(("usage"@, usage_json(m.usage))),
    )
}

/// The wire form of a record: one JSON object whose `type` field names the
/// variant, with absent optional fields written as null.
pub open spec fn message_json(m: SessionMessageView) -> JsonView {
    match m {
        SessionMessageView::Summary { summary, leaf_uuid } => JsonView::Object(
            Seq::empty().push(("type"@, JsonView::Str("summary"@))).push(
                ("summary"@, JsonView::Str(summary)),
            ).push(("leafUuid"@, JsonView::Str(leaf_uuid))),
        ),
        SessionMessageView::System {
            base,
            content,
            is_meta,
            tool_use_id,
            level,
            git_branch,
            request_id,
        } => JsonView::Object(
            base_entries("system"@, base).push(("content"@, JsonView::Str(content))).push(
                ("isMeta"@, JsonView::Bool(is_meta)),
            ).push(("toolUseID"@, opt_text_json(tool_use_id))).push(
                ("level"@, opt_text_json(level)),
            ).push(("gitBranch"@, opt_text_json(git_branch))).push(
                ("requestId"@, opt_text_json(request_id)),
            ),
        ),
        SessionMessageView::User {
            base,
            message,
            git_branch,
            is_meta,
            is_compact_summary,
            tool_use_result,
        } => JsonView::Object(
            base_entries("user"@, base).push(("message"@, user_message_json(message))).push(
                ("gitBranch"@, opt_text_json(git_branch)),
            ).push(("isMeta"@, opt_bool_json(is_meta))).push(
                ("isCompactSummary"@, opt_bool_json(is_compact_summary)),
            ).push(
                (
                    "toolUseResult"@,
                    match tool_use_result {
                        Some(v) => v,
                        None => JsonView::Null,
                    },
                ),
            ),
        ),
        SessionMessageView::Assistant {
            base,
            message,
            request_id,
            git_branch,
            is_api_error_message,
        } => JsonView::Object(
            base_entries("assistant"@, base).push(
                ("message"@, assistant_message_json(message)),
            ).push(("requestId"@, opt_text_json(request_id))).push(
                ("gitBranch"@, opt_text_json(git_branch)),
            ).push(("isApiErrorMessage"@, opt_bool_json(is_api_error_message))),
        ),
    }
}

/// A content block that its wire form can carry back: an image payload of
/// a tool result is not empty (an empty one reads back as text items).
pub open spec fn content_wf(b: ContentView) -> bool {
    match b {
        ContentView::ToolResult { content: Some(ToolResultContentView::ImageArray(is)), .. } => is.len()
            > 0,
        _ => true,
    }
}

pub open spec fn blocks_wf(bs: Seq<ContentView>) -> bool {
    forall|i: int| 0 <= i < bs.len() ==> content_wf(#[trigger] bs[i])
}

/// A record that its wire form can carry back: conversational records have
/// a timestamp, a user record's tool output is not null, and its blocks are
/// well formed.
pub open spec fn message_wf(m: SessionMessageView) -> bool {
    match m {
        SessionMessageView::Summary { .. } => true,
        SessionMessageView::System { base, .. } => base.timestamp.len() > 0,
        SessionMessageView::User { base, message, tool_use_result, .. } => {
            &&& base.timestamp.len() > 0
            &&& tool_use_result != Some(JsonView::Null)
            &&& match message.content {
                UserContentView::Array(bs) => blocks_wf(bs),
                UserContentView::String(_) => true,
            }
        },
        SessionMessageView::Assistant { base, message, .. } => {
            &&& base.timestamp.len() > 0
            &&& blocks_wf(message.content)
        },
    }
}

proof fn lemma_each_of_round_trip<T>(
    xs: Seq<T>,
    enc: spec_fn(T) -> JsonView,
    dec: spec_fn(JsonView) -> Option<T>,
)
    requires
        forall|i: int| 0 <= i < xs.len() ==> dec(enc(#[trigger] xs[i])) == Some(xs[i]),
    ensures
        each_of(xs.map_values(enc), dec) == Some(xs),
    decreases xs.len(),
{
    if xs.len() > 0 {
        let init = xs.drop_last();
        assert forall|i: int| 0 <= i < init.len() implies dec(enc(#[trigger] init[i])) == Some(
            init[i],
        ) by {
            assert(init[i] == xs[i]);
        }
        lemma_each_of_round_trip(init, enc, dec);
        assert(xs.map_values(enc).drop_last() =~= init.map_values(enc));
        assert(dec(enc(xs[xs.len() - 1])) == Some(xs[xs.len() - 1]));
        assert(init.push(xs.last()) =~= xs);
    }
}

proof fn lemma_tool_result_content_round_trip(c: ToolResultContentView)
    requires
        c is ImageArray ==> c->ImageArray_0.len() > 0,
    ensures
        tool_result_content_of(tool_result_content_json(c)) == Some(c),
{
    match c {
        ToolResultContentView::String(_) => {},
        ToolResultContentView::TextArray(ts) => {
            assert forall|i: int| 0 <= i < ts.len() implies text_content_of_fn()(
                (|t: TextContentView| text_content_json(t))(#[trigger] ts[i]),
            ) == Some(ts[i]) by {
                lemma_text_content_round_trip(ts[i]);
            }
            lemma_each_of_round_trip(ts, |t: TextContentView| text_content_json(t), text_content_of_fn());
        },
        ToolResultContentView::ImageArray(is) => {
            let items = is.map_values(|i: ImageContentView| image_content_json(i));
            assert forall|i: int| 0 <= i < is.len() implies image_content_of_fn()(
                (|x: ImageContentView| image_content_json(x))(#[trigger] is[i]),
            ) == Some(is[i]) by {
                lemma_image_content_round_trip(is[i]);
            }
            lemma_each_of_round_trip(is, |x: ImageContentView| image_content_json(x), image_content_of_fn());
            lemma_image_content_round_trip(is[0]);
            assert(items.subrange(0, 1).drop_last() =~= Seq::<JsonView>::empty());
            assert(items.subrange(0, 1).last() == items[0]);
            lemma_each_of_prefix_fails(items, 1, text_content_of_fn());
        },
    }
}

proof fn lemma_content_round_trip(b: ContentView)
    requires
        content_wf(b),
    ensures
        content_of(content_json(b)) == Some(b),
{
    broadcast use lemma_field_of_push;
    lemma_wire_keys();
    reveal_strlit("text");
    reveal_strlit("tool_use");
    reveal_strlit("tool_result");
    reveal_strlit("thinking");
    reveal_strlit("image");
    match b {
        ContentView::ToolResult { content: Some(c), .. } => {
            lemma_tool_result_content_round_trip(c);
        },
        ContentView::Image { source } => {
            lemma_image_source_round_trip(source);
        },
        _ => {},
    }
}

proof fn lemma_blocks_round_trip(bs: Seq<ContentView>)
    requires
        blocks_wf(bs),
    ensures
        blocks_of(bs.map_values(|b: ContentView| content_json(b))) == Some(bs),
{
    assert forall|i: int| 0 <= i < bs.len() implies content_of_fn()(
        (|b: ContentView| content_json(b))(#[trigger] bs[i]),
    ) == Some(bs[i]) by {
        lemma_content_round_trip(bs[i]);
    }
    lemma_each_of_round_trip(bs, |b: ContentView| content_json(b), content_of_fn());
}

proof fn lemma_user_message_round_trip(m: UserMessageView)
    requires
        m.content is Array ==> blocks_wf(m.content->Array_0),
    ensures
        user_message_of(user_message_json(m)) == Some(m),
{
    broadcast use lemma_field_of_push;
    lemma_wire_keys();
    if let UserContentView::Array(bs) = m.content {
        lemma_blocks_round_trip(bs);
    }
}

proof fn lemma_assistant_message_round_trip(m: AssistantMessageView)
    requires
        blocks_wf(m.content),
    ensures
        assistant_message_of(assistant_message_json(m)) == Some(m),
{
    broadcast use lemma_field_of_push;
    lemma_wire_keys();
    lemma_blocks_round_trip(m.content);
    lemma_usage_round_trip(m.usage);
}

proof fn lemma_base_entries(tag: Seq<char>, b: BaseMessageView)
    ensures
        field_of(base_entries(tag, b), "type"@) == Some(JsonView::Str(tag)),
        base_of(base_entries(tag, b)) == Some(b),
        field_of(base_entries(tag, b), "content"@) is None,
        field_of(base_entries(tag, b), "isMeta"@) is None,
        field_of(base_entries(tag, b), "toolUseID"@) is None,
        field_of(base_entries(tag, b), "level"@) is None,
        field_of(base_entries(tag, b), "gitBranch"@) is None,
        field_of(base_entries(tag, b), "requestId"@) is None,
        field_of(base_entries(tag, b), "message"@) is None,
        field_of(base_entries(tag, b), "isCompactSummary"@) is None,
        field_of(base_entries(tag, b), "toolUseResult"@) is None,
        field_of(base_entries(tag, b), "isApiErrorMessage"@) is None,
{
    broadcast use lemma_field_of_push;
    lemma_wire_keys();
}

#[verifier::spinoff_prover]
#[verifier::rlimit(100)]
proof fn lemma_system_round_trip(m: SessionMessageView)
    requires
        m is System,
        message_wf(m),
    ensures
        message_of(message_json(m)) == Some(m),
{
    broadcast use lemma_field_of_push;
    lemma_wire_keys();
    reveal_strlit("summary");
    reveal_strlit("system");
    lemma_base_entries("system"@, m->System_base);
}

#[verifier::spinoff_prover]
#[verifier::rlimit(100)]
proof fn lemma_user_round_trip(m: SessionMessageView)
    requires
        m is User,
        message_wf(m),
    ensures
        message_of(message_json(m)) == Some(m),
{
    broadcast use lemma_field_of_push;
    lemma_wire_keys();
    reveal_strlit("summary");
    reveal_strlit("system");
    reveal_strlit("user");
    lemma_base_entries("user"@, m->User_base);
    lemma_user_message_round_trip(m->User_message);
}

#[verifier::spinoff_prover]
#[verifier::rlimit(100)]
proof fn lemma_assistant_round_trip(m: SessionMessageView)
    requires
        m is Assistant,
        message_wf(m),
    ensures
        message_of(message_json(m)) == Some(m),
{
    broadcast use lemma_field_of_push;
    lemma_wire_keys();
    reveal_strlit("summary");
    reveal_strlit("system");
    reveal_strlit("user");
    reveal_strlit("assistant");
    lemma_base_entries("assistant"@, m->Assistant_base);
    lemma_assistant_message_round_trip(m->Assistant_message);
}

/// Writing a well-formed record in its wire form and decoding that form
/// gives the record back: every field, required and optional, survives.
pub proof fn lemma_message_round_trip(m: SessionMessageView)
    requires
        message_wf(m),
    ensures
        message_of(message_json(m)) == Some(m),
{
    match m {
        SessionMessageView::Summary { .. } => {
            broadcast use lemma_field_of_push;
            lemma_wire_keys();
            reveal_strlit("summary");
        },
        SessionMessageView::System { .. } => lemma_system_round_trip(m),
        SessionMessageView::User { .. } => lemma_user_round_trip(m),
        SessionMessageView::Assistant { .. } => lemma_assistant_round_trip(m),
    }
}

proof fn lemma_decoded_blocks_wf(items: Seq<JsonView>)
    requires
        blocks_of(items) is Some,
    ensures
        blocks_wf(blocks_of(items)->0),
    decreases items.len(),
{
    if items.len() > 0 {
        let init = items.drop_last();
        lemma_decoded_blocks_wf(init);
        let b = content_of(items.last());
        let bs = blocks_of(items)->0;
        assert(bs == blocks_of(init)->0.push(b->0));
        match items.last() {
            JsonView::Object(es) => {
                match opt_json_field(es, "content"@) {
                    Some(JsonView::Array(xs)) => {
                        if xs.len() == 0 {
                            assert(texts_of(xs) is Some);
                        }
                    },
                    _ => {},
                }
            },
            _ => {},
        }
        assert forall|i: int| 0 <= i < bs.len() implies content_wf(#[trigger] bs[i]) by {
            if i < bs.len() - 1 {
                assert(bs[i] == blocks_of(init)->0[i]);
            }
        }
    }
}

proof fn lemma_decoded_message_wf(j: JsonView)
    requires
        message_of(j) is Some,
    ensures
        message_wf(message_of(j)->0),
{
    match message_of(j)->0 {
        SessionMessageView::User { message, .. } => {
            let es = j->Object_0;
            let m = field_of(es, "message"@)->0;
            if let UserContentView::Array(_) = message.content {
                lemma_decoded_blocks_wf(field_of(m->Object_0, "content"@)->0->Array_0);
            }
        },
        SessionMessageView::Assistant { .. } => {
            let es = j->Object_0;
            let m = field_of(es, "message"@)->0;
            lemma_decoded_blocks_wf(field_of(m->Object_0, "content"@)->0->Array_0);
        },
        _ => {},
    }
}

/// Decoding a wire record, writing the result in wire form again and
/// decoding that gives the same record: re-encoding keeps every field.
pub proof fn lemma_decode_encode_decode(j: JsonView)
    requires
        message_of(j) is Some,
    ensures
        message_of(message_json(message_of(j)->0)) == message_of(j),
{
    lemma_decoded_message_wf(j);
    lemma_message_round_trip(message_of(j)->0);
}

} // verus!
