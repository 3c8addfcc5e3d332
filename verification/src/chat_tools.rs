//! Tool declarations and their conversion into the `tools` array of a
//! chat-completions request.
use vstd::prelude::*;

use crate::json_value::{
    clone_json, json_view, lemma_json_views_push, lemma_member_json_views_push, member_json_views,
    JsonValue, JsonView,
};
use crate::string_set::StringSet;

verus! {

/// A tool the model may call.
#[derive(Debug, Clone)]
pub enum ToolSpec {
    /// A function tool with a JSON-schema parameter object.
    Function { name: String, description: String, parameters: JsonValue },
    /// A freeform tool whose input is raw text (for example `apply_patch`).
    Freeform { name: String, description: String },
    /// Any other kind of tool, which chat-completions cannot declare.
    Other,
}

/// A tool declaration, with its texts as characters.
pub enum ToolSpecView {
    Function { name: Seq<char>, description: Seq<char>, parameters: JsonView },
    Freeform { name: Seq<char>, description: Seq<char> },
    Other,
}

impl View for ToolSpec {
    type V = ToolSpecView;

    open spec fn view(&self) -> ToolSpecView {
        match self {
            ToolSpec::Function { name, description, parameters } => ToolSpecView::Function {
                name: name@,
                description: description@,
                parameters: json_view(*parameters),
            },
            ToolSpec::Freeform { name, description } => ToolSpecView::Freeform {
                name: name@,
                description: description@,
            },
            ToolSpec::Other => ToolSpecView::Other,
        }
    }
}

/// The views of a sequence of tool declarations.
pub open spec fn tool_spec_views(s: Seq<ToolSpec>) -> Seq<ToolSpecView> {
    s.map_values(|t: ToolSpec| t@)
}

/// One entry of the request's `tools` array:
/// `{"type": "function", "function": {"name": name, "description":
/// description, "parameters": parameters}}`.
#[derive(Debug, Clone)]
pub struct ChatTool {
    pub name: String,
    pub description: String,
    pub parameters: JsonValue,
}

/// A request tool, with its texts as characters.
pub struct ChatToolView {
    pub name: Seq<char>,
    pub description: Seq<char>,
    pub parameters: JsonView,
}

impl View for ChatTool {
    type V = ChatToolView;

    open spec fn view(&self) -> ChatToolView {
        ChatToolView {
            name: self.name@,
            description: self.description@,
            parameters: json_view(self.parameters),
        }
    }
}

/// The views of a sequence of request tools.
pub open spec fn chat_tool_views(s: Seq<ChatTool>) -> Seq<ChatToolView> {
    s.map_values(|t: ChatTool| t@)
}

/// Appended to a freeform tool's description: how to pass its body.
pub const FREEFORM_DESCRIPTION_NOTE: &'static str =
    "\n\nThis is a freeform tool. Call it by passing the entire body (including any grammar markers required by the tool) as a JSON string in the single argument named `input`.";

/// The one argument of a freeform tool declared as a function: its raw body.
pub const FREEFORM_INPUT_FIELD: &'static str = "input";

/// What the freeform tool's one argument holds.
pub const FREEFORM_INPUT_DESCRIPTION: &'static str = "Raw freeform body for the tool.";

/// The parameter schema of a freeform tool declared as a function: one
/// required string argument, `input`, holding the raw body, and no other:
/// `{"type": "object", "properties": {"input": {"type": "string",
/// "description": "Raw freeform body for the tool."}}, "required":
/// ["input"], "additionalProperties": false}`.
pub open spec fn freeform_parameters_view() -> JsonView {
    JsonView::Object(
        seq![
            ("type"@, JsonView::Str("object"@)),
            (
                "properties"@,
                JsonView::Object(
                    seq![
                        (
                            FREEFORM_INPUT_FIELD@,
                            JsonView::Object(
                                seq![
                                    ("type"@, JsonView::Str("string"@)),
                                    ("description"@, JsonView::Str(FREEFORM_INPUT_DESCRIPTION@)),
                                ],
                            ),
                        ),
                    ],
                ),
            ),
            ("required"@, JsonView::Array(seq![JsonView::Str(FREEFORM_INPUT_FIELD@)])),
            ("additionalProperties"@, JsonView::Bool(false)),
        ],
    )
}

/// The parameter schema of a freeform tool declared as a function.
pub fn freeform_parameters() -> (r: JsonValue)
    ensures
        json_view(r) == freeform_parameters_view(),
{
    let mut input_members: Vec<(String, JsonValue)> = Vec::new();
    assert(member_json_views(input_members@) == Seq::<(Seq<char>, JsonView)>::empty());
    push_member(&mut input_members, "type".to_string(), JsonValue::Str("string".to_string()));
    push_member(
        &mut input_members,
        "description".to_string(),
        JsonValue::Str(FREEFORM_INPUT_DESCRIPTION.to_string()),
    );
    let ghost input_view = member_json_views(input_members@);
    assert(input_view =~= seq![
        ("type"@, JsonView::Str("string"@)),
        ("description"@, JsonView::Str(FREEFORM_INPUT_DESCRIPTION@)),
    ]);
    let mut property_members: Vec<(String, JsonValue)> = Vec::new();
    assert(member_json_views(property_members@) == Seq::<(Seq<char>, JsonView)>::empty());
    push_member(
        &mut property_members,
        FREEFORM_INPUT_FIELD.to_string(),
        JsonValue::Object(input_members),
    );
    let mut required_items: Vec<JsonValue> = Vec::new();
    required_items.push(JsonValue::Str(FREEFORM_INPUT_FIELD.to_string()));
    proof {
        lemma_json_views_push(Seq::empty(), required_items@[0]);
        assert(Seq::<JsonValue>::empty().push(required_items@[0]) =~= required_items@);
    }
    let ghost property_view = member_json_views(property_members@);
    assert(property_view =~= seq![(FREEFORM_INPUT_FIELD@, JsonView::Object(input_view))]);
    let mut members: Vec<(String, JsonValue)> = Vec::new();
    assert(member_json_views(members@) == Seq::<(Seq<char>, JsonView)>::empty());
    push_member(&mut members, "type".to_string(), JsonValue::Str("object".to_string()));
    push_member(&mut members, "properties".to_string(), JsonValue::Object(property_members));
    push_member(&mut members, "required".to_string(), JsonValue::Array(required_items));
    push_member(&mut members, "additionalProperties".to_string(), JsonValue::Bool(false));
    let r = JsonValue::Object(members);
    proof {
        assert(member_json_views(members@) =~= seq![
            ("type"@, JsonView::Str("object"@)),
            (
                "properties"@,
                JsonView::Object(
                    seq![
                        (
                            FREEFORM_INPUT_FIELD@,
                            JsonView::Object(
                                seq![
                                    ("type"@, JsonView::Str("string"@)),
                                    ("description"@, JsonView::Str(FREEFORM_INPUT_DESCRIPTION@)),
                                ],
                            ),
                        ),
                    ],
                ),
            ),
            ("required"@, JsonView::Array(seq![JsonView::Str(FREEFORM_INPUT_FIELD@)])),
            ("additionalProperties"@, JsonView::Bool(false)),
        ]);
    }
    r
}

/// Appends the member `key: value`.
fn push_member(members: &mut Vec<(String, JsonValue)>, key: String, value: JsonValue)
    ensures
        member_json_views(final(members)@) == member_json_views(old(members)@).push(
            (key@, json_view(value)),
        ),
{
    let ghost before = members@;
    let ghost m = (key, value);
    members.push((key, value));
    proof {
        lemma_member_json_views_push(before, m);
    }
}

/// The request tool for one declaration, if chat-completions can declare it.
/// A freeform tool becomes a function taking its body as the string `input`.
pub open spec fn chat_tool_for(t: ToolSpecView) -> Option<ChatToolView> {
    match t {
        ToolSpecView::Function { name, description, parameters } => Some(
            ChatToolView { name, description, parameters },
        ),
        ToolSpecView::Freeform { name, description } => Some(
            ChatToolView {
                name,
                description: description + FREEFORM_DESCRIPTION_NOTE@,
                parameters: freeform_parameters_view(),
            },
        ),
        ToolSpecView::Other => None,
    }
}

/// The request tools for a list of declarations, in order.
pub open spec fn chat_tools_for(tools: Seq<ToolSpecView>) -> Seq<ChatToolView>
    decreases tools.len(),
{
    if tools.len() == 0 {
        Seq::empty()
    } else {
        let rest = chat_tools_for(tools.drop_last());
        match chat_tool_for(tools.last()) {
            Some(t) => rest.push(t),
            None => rest,
        }
    }
}

/// The names of the freeform tools among a list of declarations.
pub open spec fn freeform_names(tools: Seq<ToolSpecView>) -> Set<Seq<char>>
    decreases tools.len(),
{
    if tools.len() == 0 {
        Set::empty()
    } else {
        let rest = freeform_names(tools.drop_last());
        match tools.last() {
            ToolSpecView::Freeform { name, .. } => rest.insert(name),
            _ => rest,
        }
    }
}

/// The request tool for one declaration, if chat-completions can declare it.
pub fn tool_to_chat_tool(t: &ToolSpec) -> (r: Option<ChatTool>)
    ensures
        match r {
            Some(c) => chat_tool_for(t@) == Some(c@),
            None => chat_tool_for(t@) is None,
        },
{
    match t {
        ToolSpec::Function { name, description, parameters } => Some(
            ChatTool {
                name: name.clone(),
                description: description.clone(),
                parameters: clone_json(parameters),
            },
        ),
        ToolSpec::Freeform { name, description } => {
            let mut full_description = description.clone();
            full_description.append(FREEFORM_DESCRIPTION_NOTE);
            Some(
                ChatTool {
                    name: name.clone(),
                    description: full_description,
                    parameters: freeform_parameters(),
                },
            )
        },
        ToolSpec::Other => None,
    }
}

/// Convert tool declarations into the chat-completions `tools` array, and
/// collect the names of the freeform tools, whose calls must come back as
/// freeform calls rather than function calls. Tools of other kinds are dropped.
pub fn convert_tools(tools: &Vec<ToolSpec>) -> (r: (Vec<ChatTool>, StringSet))
    ensures
        chat_tool_views(r.0@) == chat_tools_for(tool_spec_views(tools@)),
        r.1@ == freeform_names(tool_spec_views(tools@)),
{
    let mut freeform: StringSet = StringSet::new();
    let mut out: Vec<ChatTool> = Vec::new();
    let mut i: usize = 0;
    while i < tools.len()
        invariant
            i <= tools@.len(),
            chat_tool_views(out@) == chat_tools_for(tool_spec_views(tools@.take(i as int))),
            freeform@ == freeform_names(tool_spec_views(tools@.take(i as int))),
        decreases tools@.len() - i,
    {
        let ghost prev_out = out@;
        proof {
            let next = tool_spec_views(tools@.take(i + 1));
            assert(next.drop_last() =~= tool_spec_views(tools@.take(i as int)));
            assert(next.last() == tools@[i as int]@);
        }
        match &tools[i] {
            ToolSpec::Freeform { name, .. } => {
                let _ = freeform.insert(name.clone());
            },
            _ => {},
        }
        match tool_to_chat_tool(&tools[i]) {
            Some(t) => {
                out.push(t);
                proof {
                    assert(chat_tool_views(out@) =~= chat_tool_views(prev_out).push(out@.last()@));
                }
            },
            None => {},
        }
        i = i + 1;
    }
    proof {
        assert(tools@.take(i as int) =~= tools@);
    }
    (out, freeform)
}

/// `t` is a freeform tool named `n`.
pub open spec fn is_freeform_named(t: ToolSpecView, n: Seq<char>) -> bool {
    match t {
        ToolSpecView::Freeform { name, .. } => name == n,
        _ => false,
    }
}

/// A name is among the freeform names exactly when some freeform tool of the
/// list has that name, wherever it stands in the list.
pub proof fn lemma_freeform_names_are_the_freeform_tools(tools: Seq<ToolSpecView>, n: Seq<char>)
    ensures
        freeform_names(tools).contains(n) <==> exists|i: int|
            0 <= i < tools.len() && is_freeform_named(#[trigger] tools[i], n),
    decreases tools.len(),
{
    if tools.len() > 0 {
        let prev = tools.drop_last();
        lemma_freeform_names_are_the_freeform_tools(prev, n);
        if exists|i: int|
            0 <= i < prev.len() && is_freeform_named(#[trigger] prev[i], n) {
            let i = choose|i: int|
                0 <= i < prev.len() && is_freeform_named(#[trigger] prev[i], n);
            assert(tools[i] == prev[i]);
        }
        if exists|i: int|
            0 <= i < tools.len() && is_freeform_named(#[trigger] tools[i], n) {
            let i = choose|i: int|
                0 <= i < tools.len() && is_freeform_named(#[trigger] tools[i], n);
            if i < prev.len() {
                assert(prev[i] == tools[i]);
            } else {
                assert(tools.last() == tools[i]);
            }
        }
        assert(tools.last() == tools[tools.len() - 1]);
    }
}

/// The request tools of two runs of declarations are those of the first run
/// followed by those of the second: each declaration is converted on its
/// own, in order.
pub proof fn lemma_chat_tools_concatenate(a: Seq<ToolSpecView>, b: Seq<ToolSpecView>)
    ensures
        chat_tools_for(a + b) == chat_tools_for(a) + chat_tools_for(b),
    decreases b.len(),
{
    if b.len() == 0 {
        assert(a + b =~= a);
        assert(chat_tools_for(a) + Seq::<ChatToolView>::empty() =~= chat_tools_for(a));
    } else {
        lemma_chat_tools_concatenate(a, b.drop_last());
        assert((a + b).drop_last() =~= a + b.drop_last());
        assert((a + b).last() == b.last());
        match chat_tool_for(b.last()) {
            Some(t) => {
                assert(chat_tools_for(a) + chat_tools_for(b.drop_last()).push(t) =~= (
                chat_tools_for(a) + chat_tools_for(b.drop_last())).push(t));
            },
            None => {},
        }
    }
}

/// What one declaration becomes: a function tool is declared as it is; a
/// freeform tool is declared as a function with the same name, its
/// description followed by how to pass the body, and the one-string-argument
/// schema; any other tool is dropped.
pub proof fn lemma_chat_tool_of_one_declaration(t: ToolSpecView)
    ensures
        t matches ToolSpecView::Function { name, description, parameters } ==> chat_tools_for(
            seq![t],
        ) == seq![ChatToolView { name, description, parameters }],
        t matches ToolSpecView::Freeform { name, description } ==> chat_tools_for(seq![t])
            == seq![
            ChatToolView {
                name,
                description: description + FREEFORM_DESCRIPTION_NOTE@,
                parameters: freeform_parameters_view(),
            },
        ],
        t is Other ==> chat_tools_for(seq![t]) == Seq::<ChatToolView>::empty(),
{
    let one = seq![t];
    assert(one.drop_last() =~= Seq::<ToolSpecView>::empty());
    assert(one.last() == t);
    assert(chat_tools_for(one.drop_last()) == Seq::<ChatToolView>::empty());
    match chat_tool_for(t) {
        Some(c) => {
            assert(chat_tools_for(one) == chat_tools_for(one.drop_last()).push(c));
            assert(Seq::<ChatToolView>::empty().push(c) =~= seq![c]);
        },
        None => {},
    }
}

} // verus!
