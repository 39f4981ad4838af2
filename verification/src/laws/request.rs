//! What a Chat Completions request says of the Responses request it was written for.

use vstd::prelude::*;

use crate::json::Tree;
use crate::protocol::chat::{
    chat_request, choice_of, declarations, message_of, messages_of, no_streaming, text_of_content,
    text_of_part, text_of_parts,
};
use crate::types::{
    FunctionTool, InputContent, InputItem, InputMessageContent, ToolChoice, UpstreamRequest,
    UpstreamTool,
};
use crate::wire::integer;

verus! {

/// The members of a Chat Completions request have names of their own.
proof fn lemma_names_differ()
    ensures
        "model"@ != "messages"@,
        "model"@ != "stream"@,
        "messages"@ != "stream"@,
        "max_tokens"@ != "model"@,
        "max_tokens"@ != "messages"@,
        "max_tokens"@ != "stream"@,
        "temperature"@ != "model"@,
        "temperature"@ != "messages"@,
        "temperature"@ != "stream"@,
        "temperature"@ != "max_tokens"@,
        "top_p"@ != "model"@,
        "top_p"@ != "messages"@,
        "top_p"@ != "stream"@,
        "top_p"@ != "max_tokens"@,
        "top_p"@ != "temperature"@,
        "parallel_tool_calls"@ != "model"@,
        "parallel_tool_calls"@ != "messages"@,
        "parallel_tool_calls"@ != "stream"@,
        "parallel_tool_calls"@ != "max_tokens"@,
        "parallel_tool_calls"@ != "temperature"@,
        "parallel_tool_calls"@ != "top_p"@,
        "tools"@ != "model"@,
        "tools"@ != "messages"@,
        "tools"@ != "stream"@,
        "tools"@ != "max_tokens"@,
        "tools"@ != "temperature"@,
        "tools"@ != "top_p"@,
        "tools"@ != "parallel_tool_calls"@,
        "tool_choice"@ != "model"@,
        "tool_choice"@ != "messages"@,
        "tool_choice"@ != "stream"@,
        "tool_choice"@ != "max_tokens"@,
        "tool_choice"@ != "temperature"@,
        "tool_choice"@ != "top_p"@,
        "tool_choice"@ != "parallel_tool_calls"@,
        "tool_choice"@ != "tools"@,
{
    reveal_strlit("model");
    reveal_strlit("messages");
    reveal_strlit("stream");
    reveal_strlit("max_tokens");
    reveal_strlit("temperature");
    reveal_strlit("top_p");
    reveal_strlit("parallel_tool_calls");
    reveal_strlit("tools");
    reveal_strlit("tool_choice");
    assert("model"@.len() == 5);
    assert("messages"@.len() == 8);
    assert("stream"@.len() == 6);
    assert("max_tokens"@.len() == 10);
    assert("temperature"@.len() == 11);
    assert("top_p"@.len() == 5);
    assert("parallel_tool_calls"@.len() == 19);
    assert("tools"@.len() == 5);
    assert("tool_choice"@.len() == 11);
    assert("model"@[0] != "top_p"@[0]);
    assert("model"@[0] != "tools"@[0]);
    assert("top_p"@[2] != "tools"@[2]);
    assert("temperature"@[1] != "tool_choice"@[1]);
}

/// How many of the tools are functions.
pub open spec fn functions_among(tools: Seq<UpstreamTool>) -> nat
    decreases tools.len(),
{
    if tools.len() == 0 {
        0
    } else {
        functions_among(tools.drop_last()) + if tools.last() is Function {
            1nat
        } else {
            0nat
        }
    }
}

/// A function and what it is declared as.
spec fn declares(function: FunctionTool, written: Tree) -> bool {
    written == Tree::Object(
        map![
            "type"@ => Tree::String("function"@),
            "function"@ => Tree::Object(
                map![
                    "name"@ => Tree::String(function.name@),
                    "description"@ => if function.description is Some {
                        Tree::String(function.description->0@)
                    } else {
                        Tree::Null
                    },
                    "parameters"@ => if function.parameters is Some {
                        function.parameters->0@
                    } else {
                        Tree::Object(
                            map![
                                "type"@ => Tree::String("object"@),
                                "properties"@ => Tree::Object(Map::empty()),
                            ],
                        )
                    },
                ],
            ),
        ],
    )
}

proof fn lemma_declarations(tools: Seq<UpstreamTool>, i: int)
    requires
        0 <= i < tools.len(),
    ensures
        declarations(tools).len() == functions_among(tools),
        tools[i] matches UpstreamTool::Function(function) ==> functions_among(tools.take(i))
            < declarations(tools).len() && declares(
            function,
            declarations(tools)[functions_among(tools.take(i)) as int],
        ),
    decreases tools.len(),
{
    let front = tools.drop_last();
    if i < front.len() {
        lemma_declarations(front, i);
        assert(front.take(i) =~= tools.take(i));
    } else {
        assert(tools.take(i) =~= front);
        if front.len() > 0 {
            lemma_declarations(front, 0);
        }
    }
}

/// Every function of a request is declared once, in order, and nothing else is: the declaration
/// carries the function's own name, description and parameters. A function without parameters is
/// declared to take an empty object.
pub proof fn functions_are_declared_as_they_are(request: UpstreamRequest, i: int)
    requires
        request.tools is Some,
        0 <= i < request.tools->0@.len(),
        request.tools->0@[i] is Function,
    ensures
        chat_request(request).contains_key("tools"@),
        chat_request(request)["tools"@] is Array,
        ({
            let tools = request.tools->0@;
            let function = tools[i]->Function_0;
            let list = chat_request(request)["tools"@]->Array_0;
            let n = functions_among(tools.take(i));
            &&& list.len() == functions_among(tools)
            &&& n < list.len()
            &&& list[n as int] is Object
            &&& list[n as int]->Object_0.dom() == set!["type"@, "function"@]
            &&& list[n as int]->Object_0["type"@] == Tree::String("function"@)
            &&& list[n as int]->Object_0["function"@] is Object
            &&& {
                let declared = list[n as int]->Object_0["function"@]->Object_0;
                &&& declared.dom() == set!["name"@, "description"@, "parameters"@]
                &&& declared["name"@] == Tree::String(function.name@)
                &&& function.description is Some ==> declared["description"@] == Tree::String(
                    function.description->0@,
                )
                &&& function.description is None ==> declared["description"@] == Tree::Null
                &&& function.parameters is Some ==> declared["parameters"@]
                    == function.parameters->0@
                &&& function.parameters is None ==> declared["parameters"@] == Tree::Object(
                    map![
                        "type"@ => Tree::String("object"@),
                        "properties"@ => Tree::Object(Map::empty()),
                    ],
                )
            }
        }),
{
    lemma_names_differ();
    let tools = request.tools->0@;
    lemma_declarations(tools, i);
    lemma_tool_words();
    let n = functions_among(tools.take(i)) as int;
    let m = declarations(tools)[n]->Object_0;
    assert(m.dom() =~= set!["type"@, "function"@]);
    assert(m["function"@]->Object_0.dom() =~= set!["name"@, "description"@, "parameters"@]);
}

proof fn lemma_tool_words()
    ensures
        "type"@ != "function"@,
        "name"@ != "description"@,
        "name"@ != "parameters"@,
        "description"@ != "parameters"@,
{
    reveal_strlit("type");
    reveal_strlit("function");
    reveal_strlit("name");
    reveal_strlit("description");
    reveal_strlit("parameters");
    assert("type"@.len() == 4);
    assert("function"@.len() == 8);
    assert("name"@.len() == 4);
    assert("description"@.len() == 11);
    assert("parameters"@.len() == 10);
}

/// Without a function among its tools a request declares none and chooses none.
pub proof fn nothing_is_declared_without_a_function(request: UpstreamRequest)
    requires
        request.tools is Some ==> forall|i: int|
            0 <= i < request.tools->0@.len() ==> !((#[trigger] request.tools->0@[i]) is Function),
    ensures
        !chat_request(request).contains_key("tools"@),
        !chat_request(request).contains_key("tool_choice"@),
{
    lemma_names_differ();
    if request.tools is Some {
        lemma_no_functions(request.tools->0@);
    }
}

proof fn lemma_no_functions(tools: Seq<UpstreamTool>)
    requires
        forall|i: int| 0 <= i < tools.len() ==> !((#[trigger] tools[i]) is Function),
    ensures
        declarations(tools).len() == 0,
    decreases tools.len(),
{
    if tools.len() > 0 {
        let front = tools.drop_last();
        assert forall|i: int| 0 <= i < front.len() implies !((#[trigger] front[i]) is Function) by {
            assert(front[i] == tools[i]);
        }
        assert(!(tools[tools.len() - 1] is Function));
        lemma_no_functions(front);
    }
}

/// Beside at least one function the client's choice is handed on: no tool, some tool, or the
/// function it names. The default and a freeform tool are left for the model to decide.
pub proof fn the_choice_is_handed_on(request: UpstreamRequest, i: int)
    requires
        request.tools is Some,
        0 <= i < request.tools->0@.len(),
        request.tools->0@[i] is Function,
    ensures
        chat_request(request).contains_key("tool_choice"@) <==> (request.tool_choice is Some && (
        request.tool_choice->0 is Never || request.tool_choice->0 is Required
            || request.tool_choice->0 is Function)),
        request.tool_choice == Some(ToolChoice::Never) ==> chat_request(request)["tool_choice"@]
            == Tree::String("none"@),
        request.tool_choice == Some(ToolChoice::Required) ==> chat_request(request)["tool_choice"@]
            == Tree::String("required"@),
        request.tool_choice is Some && request.tool_choice->0 is Function ==> chat_request(
            request,
        )["tool_choice"@] == Tree::Object(
            map![
                "type"@ => Tree::String("function"@),
                "function"@ => Tree::Object(
                    map!["name"@ => Tree::String(request.tool_choice->0->Function_name@)],
                ),
            ],
        ),
{
    lemma_names_differ();
    lemma_declarations(request.tools->0@, i);
}

/// The model and each limit that the client set are handed on as they are; one that it did not set
/// is not sent. Nothing is streamed, and no member has any other name.
pub proof fn settings_are_handed_on(request: UpstreamRequest, key: Seq<char>)
    ensures
        ({
            let written = chat_request(request);
            &&& written.contains_key("model"@) && written["model"@] == Tree::String(request.model@)
            &&& written.contains_key("stream"@) && written["stream"@] == Tree::Bool(false)
            &&& written.contains_key("messages"@) && written["messages"@] is Array
            &&& written.contains_key("max_tokens"@) <==> request.max_output_tokens is Some
            &&& request.max_output_tokens is Some ==> written["max_tokens"@] == Tree::Number(
                integer(request.max_output_tokens->0 as int),
            )
            &&& written.contains_key("temperature"@) <==> request.temperature is Some
            &&& request.temperature is Some ==> written["temperature"@] == Tree::Number(
                request.temperature->0,
            )
            &&& written.contains_key("top_p"@) <==> request.top_p is Some
            &&& request.top_p is Some ==> written["top_p"@] == Tree::Number(request.top_p->0)
            &&& written.contains_key("parallel_tool_calls"@) <==> request.parallel_tool_calls
                is Some
            &&& request.parallel_tool_calls is Some ==> written["parallel_tool_calls"@]
                == Tree::Bool(request.parallel_tool_calls->0)
            &&& written.contains_key(key) ==> key == "model"@ || key == "messages"@ || key
                == "stream"@ || key == "max_tokens"@ || key == "temperature"@ || key == "top_p"@
                || key == "parallel_tool_calls"@ || key == "tools"@ || key == "tool_choice"@
        }),
{
    lemma_names_differ();
}

/// An item that has a counterpart among the messages.
pub open spec fn is_spoken(item: InputItem) -> bool {
    item is Message || item is FunctionCall || item is FunctionCallOutput
}

/// How many of the items have a counterpart.
pub open spec fn spoken_among(items: Seq<InputItem>) -> nat
    decreases items.len(),
{
    if items.len() == 0 {
        0
    } else {
        spoken_among(items.drop_last()) + if is_spoken(items.last()) {
            1nat
        } else {
            0nat
        }
    }
}

/// An item and the message that says the same.
spec fn says(item: InputItem, message: Tree) -> bool {
    match item {
        InputItem::Message(m) => message == Tree::Object(
            map![
                "role"@ => Tree::String(m.role@),
                "content"@ => Tree::String(
                    match m.content {
                        InputMessageContent::Text(text) => text@,
                        InputMessageContent::Parts(parts) => text_of_parts(parts@),
                    },
                ),
            ],
        ),
        InputItem::FunctionCall(call) => message == Tree::Object(
            map![
                "role"@ => Tree::String("assistant"@),
                "content"@ => Tree::Null,
                "tool_calls"@ => Tree::Array(seq![
                    Tree::Object(map![
                        "id"@ => Tree::String(call.call_id@),
                        "type"@ => Tree::String("function"@),
                        "function"@ => Tree::Object(map![
                            "name"@ => Tree::String(call.name@),
                            "arguments"@ => Tree::String(call.arguments@),
                        ]),
                    ]),
                ]),
            ],
        ),
        InputItem::FunctionCallOutput(result) => message == Tree::Object(
            map![
                "role"@ => Tree::String("tool"@),
                "tool_call_id"@ => Tree::String(result.call_id@),
                "content"@ => result.output@,
            ],
        ),
        _ => false,
    }
}

proof fn lemma_messages(items: Seq<InputItem>, i: int)
    requires
        0 <= i < items.len(),
    ensures
        messages_of(items).len() == spoken_among(items),
        is_spoken(items[i]) ==> spoken_among(items.take(i)) < messages_of(items).len() && says(
            items[i],
            messages_of(items)[spoken_among(items.take(i)) as int],
        ),
    decreases items.len(),
{
    let front = items.drop_last();
    if i < front.len() {
        lemma_messages(front, i);
        assert(front.take(i) =~= items.take(i));
    } else {
        assert(items.take(i) =~= front);
        if front.len() > 0 {
            lemma_messages(front, 0);
        }
    }
}

/// Every item of a history that has a counterpart becomes one message that says the same, in order,
/// behind the instructions if there are any; nothing is said that was not in the history.
pub proof fn history_is_told_in_order(request: UpstreamRequest, i: int)
    requires
        request.input is Items,
        0 <= i < request.input->Items_0@.len(),
    ensures
        chat_request(request)["messages"@] is Array,
        ({
            let items = request.input->Items_0@;
            let told = chat_request(request)["messages"@]->Array_0;
            let lead: nat = if request.instructions is Some {
                1
            } else {
                0
            };
            let n = lead + spoken_among(items.take(i));
            &&& told.len() == lead + spoken_among(items)
            &&& items[i] is Message || items[i] is FunctionCall || items[i] is FunctionCallOutput
                ==> n < told.len()
            &&& items[i] is Message ==> told[n as int] == Tree::Object(
                map![
                    "role"@ => Tree::String(items[i]->Message_0.role@),
                    "content"@ => Tree::String(text_of_content(items[i]->Message_0.content)),
                ],
            )
            &&& items[i] is FunctionCall ==> told[n as int] == Tree::Object(
                map![
                    "role"@ => Tree::String("assistant"@),
                    "content"@ => Tree::Null,
                    "tool_calls"@ => Tree::Array(seq![
                        Tree::Object(map![
                            "id"@ => Tree::String(items[i]->FunctionCall_0.call_id@),
                            "type"@ => Tree::String("function"@),
                            "function"@ => Tree::Object(map![
                                "name"@ => Tree::String(items[i]->FunctionCall_0.name@),
                                "arguments"@ => Tree::String(items[i]->FunctionCall_0.arguments@),
                            ]),
                        ]),
                    ]),
                ],
            )
            &&& items[i] is FunctionCallOutput ==> told[n as int] == Tree::Object(
                map![
                    "role"@ => Tree::String("tool"@),
                    "tool_call_id"@ => Tree::String(items[i]->FunctionCallOutput_0.call_id@),
                    "content"@ => items[i]->FunctionCallOutput_0.output@,
                ],
            )
        }),
{
    lemma_names_differ();
    lemma_messages(request.input->Items_0@, i);
}

/// The instructions come first, as the system's message; a plain text is the user's message behind
/// them, and the last.
pub proof fn instructions_and_text_are_told(request: UpstreamRequest)
    ensures
        chat_request(request)["messages"@] is Array,
        ({
            let told = chat_request(request)["messages"@]->Array_0;
            &&& request.instructions is Some ==> told.len() > 0 && told[0] == Tree::Object(
                map![
                    "role"@ => Tree::String("system"@),
                    "content"@ => Tree::String(request.instructions->0@),
                ],
            )
            &&& request.input is Text ==> told.len() == (if request.instructions is Some {
                2nat
            } else {
                1nat
            }) && told.last() == Tree::Object(
                map![
                    "role"@ => Tree::String("user"@),
                    "content"@ => Tree::String(request.input->Text_0@),
                ],
            )
            &&& request.input is Items && request.input->Items_0@.len() == 0 ==> told.len() == (
            if request.instructions is Some {
                1nat
            } else {
                0nat
            })
        }),
{
    lemma_names_differ();
}

/// The parts of a message are run together: the text of a longer list is that of its two halves, a
/// part with text counts with all of it, and an image or an unknown part with nothing.
pub proof fn parts_are_run_together(
    first: Seq<InputContent>,
    second: Seq<InputContent>,
    part: InputContent,
)
    ensures
        text_of_parts(first + second) == text_of_parts(first) + text_of_parts(second),
        text_of_parts(seq![part]) == match part {
            InputContent::InputText(t) => t.text@,
            InputContent::OutputText(t) => t.text@,
            InputContent::ReasoningText(t) => t.text@,
            _ => Seq::empty(),
        },
    decreases second.len(),
{
    assert(seq![part].drop_last() =~= Seq::empty());
    reveal_with_fuel(text_of_parts, 2);
    let alone = text_of_parts(seq![part]);
    assert(alone =~= match part {
        InputContent::InputText(t) => t.text@,
        InputContent::OutputText(t) => t.text@,
        InputContent::ReasoningText(t) => t.text@,
        _ => Seq::empty(),
    });
    if second.len() == 0 {
        assert(first + second =~= first);
        assert(text_of_parts(first) + text_of_parts(second) =~= text_of_parts(first));
    } else {
        parts_are_run_together(first, second.drop_last(), part);
        assert((first + second).drop_last() =~= first + second.drop_last());
        assert((first + second).last() == second.last());
        assert(text_of_parts(first + second) =~= text_of_parts(first) + text_of_parts(second));
    }
}

/// A part with text counts with its text, and an image or an unknown part with none; a plain content
/// is its own text.
pub proof fn text_is_taken_whole(part: InputContent, content: InputMessageContent)
    ensures
        part is InputText ==> text_of_part(part) == Some(part->InputText_0.text@),
        part is OutputText ==> text_of_part(part) == Some(part->OutputText_0.text@),
        part is ReasoningText ==> text_of_part(part) == Some(part->ReasoningText_0.text@),
        part is InputImage || part is Unknown ==> text_of_part(part) is None,
        content is Text ==> text_of_content(content) == content->Text_0@,
        content is Parts ==> text_of_content(content) == text_of_parts(content->Parts_0@),
{
}

/// A message, a call and the result of a call have a counterpart that says the same; no other item
/// has one.
pub proof fn a_message_says_what_its_item_says(item: InputItem)
    ensures
        message_of(item) is Some <==> item is Message || item is FunctionCall || item
            is FunctionCallOutput,
        ({
            &&& item is Message ==> message_of(item)->0 == Tree::Object(
                map![
                    "role"@ => Tree::String(item->Message_0.role@),
                    "content"@ => Tree::String(text_of_content(item->Message_0.content)),
                ],
            )
            &&& item is FunctionCall ==> message_of(item)->0 == Tree::Object(
                map![
                    "role"@ => Tree::String("assistant"@),
                    "content"@ => Tree::Null,
                    "tool_calls"@ => Tree::Array(seq![
                        Tree::Object(map![
                            "id"@ => Tree::String(item->FunctionCall_0.call_id@),
                            "type"@ => Tree::String("function"@),
                            "function"@ => Tree::Object(map![
                                "name"@ => Tree::String(item->FunctionCall_0.name@),
                                "arguments"@ => Tree::String(item->FunctionCall_0.arguments@),
                            ]),
                        ]),
                    ]),
                ],
            )
            &&& item is FunctionCallOutput ==> message_of(item)->0 == Tree::Object(
                map![
                    "role"@ => Tree::String("tool"@),
                    "tool_call_id"@ => Tree::String(item->FunctionCallOutput_0.call_id@),
                    "content"@ => item->FunctionCallOutput_0.output@,
                ],
            )
        }),
{
}

/// Each choice has a form of its own; a freeform tool has none.
pub proof fn choices_are_told_apart(choice: ToolChoice)
    ensures
        choice is Auto ==> choice_of(choice) == Some(Tree::String("auto"@)),
        choice is Never ==> choice_of(choice) == Some(Tree::String("none"@)),
        choice is Required ==> choice_of(choice) == Some(Tree::String("required"@)),
        choice is Function ==> choice_of(choice) == Some(
            Tree::Object(
                map![
                    "type"@ => Tree::String("function"@),
                    "function"@ => Tree::Object(
                        map!["name"@ => Tree::String(choice->Function_name@)],
                    ),
                ],
            ),
        ),
        choice is Custom ==> choice_of(choice) is None,
{
}

/// A refusal to stream says so.
pub proof fn the_refusal_names_streaming()
    ensures
        no_streaming()
            == "streaming is not supported when the upstream API is 'chat_completions'"@,
{
}

} // verus!
