//! The scripted replies of the walkthrough's three models, and its one provider.

use vstd::prelude::*;
use vstd::string::*;

use crate::json::{count, member, object, object1, object2, object3, string, strings, truth, Json};

#[allow(unused_imports)]
use crate::json::{Num, Tree};

verus! {

/// The capabilities that the scripted orchestrator asks for.
pub fn requested_capabilities() -> (names: Vec<&'static str>)
    ensures
        names@.map_values(|name: &'static str| name@) == seq![
            "web.search"@,
            "communication.email.send"@,
        ],
{
    let names: Vec<&'static str> = vec!["web.search", "communication.email.send"];
    assert(names@.map_values(|name: &'static str| name@) =~= seq![
        "web.search"@,
        "communication.email.send"@,
    ]);
    names
}

// ---- the orchestrator ---------------------------------------------------------------

/// An action that responds with a text.
pub open spec fn respond_tree(text: Seq<char>) -> Tree {
    Tree::Object(seq![("text"@, Tree::Text(text)), ("type"@, Tree::Text("respond"@))])
}

/// An authority that asks for more than it will be given.
pub open spec fn greedy_authority() -> Tree {
    Tree::Object(
        seq![
            (
                "external_capabilities"@,
                crate::json::text_array(seq!["web.search"@, "communication.email.send"@]),
            ),
            (
                "local"@,
                Tree::Object(
                    seq![
                        ("execute_local"@, Tree::Bool(true)),
                        ("read_workspace"@, Tree::Bool(true)),
                        ("write_workspace"@, Tree::Bool(true)),
                    ],
                ),
            ),
        ],
    )
}

/// The ticket that the scripted orchestrator proposes.
pub open spec fn proposed_ticket() -> Tree {
    Tree::Object(
        seq![
            ("authority"@, greedy_authority()),
            ("constraints"@, crate::json::text_array(seq!["Do not modify any files."@])),
            (
                "context"@,
                Tree::Array(
                    seq![
                        Tree::Object(
                            seq![
                                ("label"@, Tree::Text("workspace"@)),
                                (
                                    "value"@,
                                    Tree::Text(
                                        "A Cargo workspace; the edition is set in the root Cargo.toml."@,
                                    ),
                                ),
                            ],
                        ),
                    ],
                ),
            ),
            (
                "deliverable"@,
                Tree::Text("The edition in use, and a one-line summary of what it changed."@),
            ),
            (
                "objective"@,
                Tree::Text(
                    "Determine the Rust edition this workspace targets and summarise what that edition changed."@,
                ),
            ),
        ],
    )
}

/// The orchestrator's first turn: it delegates.
pub open spec fn delegation() -> Tree {
    Tree::Object(
        seq![
            (
                "actions"@,
                Tree::Array(
                    seq![
                        respond_tree(
                            "I'll have a worker check the workspace manifest and confirm what that edition changed."@,
                        ),
                        Tree::Object(
                            seq![
                                ("ticket"@, proposed_ticket()),
                                ("type"@, Tree::Text("submit"@)),
                            ],
                        ),
                    ],
                ),
            ),
            ("memory_proposals"@, crate::json::text_array(seq![])),
        ],
    )
}

/// The orchestrator's second turn: it synthesises the worker's report.
pub open spec fn synthesis() -> Tree {
    Tree::Object(
        seq![
            (
                "actions"@,
                Tree::Array(
                    seq![
                        respond_tree(
                            "This workspace targets the Rust 2024 edition. That edition stabilised if-let chains and changed how return-position impl Trait captures lifetimes."@,
                        ),
                    ],
                ),
            ),
            (
                "memory_proposals"@,
                crate::json::text_array(
                    seq!["The Seam workspace targets the Rust 2024 edition."@],
                ),
            ),
        ],
    )
}

fn array1(item: Json) -> (made: Json)
    ensures
        made@ == Tree::Array(seq![item@]),
{
    let made = Json::Array(vec![item]);
    assert(made@->Array_0 =~= seq![item@]);
    made
}

fn text_list(items: Vec<&'static str>) -> (made: Json)
    ensures
        made@ == crate::json::text_array(items@.map_values(|item: &'static str| item@)),
{
    let mut owned: Vec<String> = Vec::new();
    let mut i: usize = 0;
    while i < items.len()
        invariant
            i <= items.len(),
            owned.len() == i,
            forall|j: int| 0 <= j < i ==> (#[trigger] owned[j])@ == items@[j]@,
        decreases items.len() - i,
    {
        owned.push(items[i].to_owned());
        i = i + 1;
    }
    assert(crate::json::texts(owned@) =~= items@.map_values(|item: &'static str| item@));
    strings(&owned)
}

fn respond_json(text: &str) -> (made: Json)
    ensures
        made@ == respond_tree(text@),
{
    proof {
        reveal_strlit("text");
        reveal_strlit("type");
        crate::ordering::smaller_at("text"@, "type"@, 1);
    }
    object2("text", string(text), "type", string("respond"))
}

fn greedy_json() -> (made: Json)
    ensures
        made@ == greedy_authority(),
{
    proof {
        reveal_strlit("execute_local");
        reveal_strlit("read_workspace");
        reveal_strlit("write_workspace");
        crate::ordering::smaller_at("execute_local"@, "read_workspace"@, 0);
        crate::ordering::smaller_at("read_workspace"@, "write_workspace"@, 0);
    }
    let local = object3(
        "execute_local",
        truth(true),
        "read_workspace",
        truth(true),
        "write_workspace",
        truth(true),
    );
    proof {
        reveal_strlit("external_capabilities");
        reveal_strlit("local");
        crate::ordering::smaller_at("external_capabilities"@, "local"@, 0);
    }
    object2("external_capabilities", text_list(requested_capabilities()), "local", local)
}

fn ticket_json() -> (made: Json)
    ensures
        made@ == proposed_ticket(),
{
    proof {
        reveal_strlit("label");
        reveal_strlit("value");
        crate::ordering::smaller_at("label"@, "value"@, 0);
    }
    let context = array1(
        object2(
            "label",
            string("workspace"),
            "value",
            string("A Cargo workspace; the edition is set in the root Cargo.toml."),
        ),
    );
    let constraints: Vec<&'static str> = vec!["Do not modify any files."];
    assert(constraints@.map_values(|item: &'static str| item@) =~= seq![
        "Do not modify any files."@,
    ]);
    let members = vec![
        member("authority", greedy_json()),
        member("constraints", text_list(constraints)),
        member("context", context),
        member(
            "deliverable",
            string("The edition in use, and a one-line summary of what it changed."),
        ),
        member(
            "objective",
            string(
                "Determine the Rust edition this workspace targets and summarise what that edition changed.",
            ),
        ),
    ];
    proof {
        assert(crate::json::given(members@) =~= proposed_ticket()->Object_0);
        crate::ordering::the_proposed_ticket_is_ordered();
    }
    object(members)
}

fn delegation_json() -> (made: Json)
    ensures
        made@ == delegation(),
{
    proof {
        reveal_strlit("ticket");
        reveal_strlit("type");
        crate::ordering::smaller_at("ticket"@, "type"@, 1);
    }
    let submit = object2("ticket", ticket_json(), "type", string("submit"));
    let respond = respond_json(
        "I'll have a worker check the workspace manifest and confirm what that edition changed.",
    );
    let actions = Json::Array(vec![respond, submit]);
    assert(actions@->Array_0 =~= delegation()->Object_0[0].1->Array_0);
    let nothing: Vec<&'static str> = Vec::new();
    assert(nothing@.map_values(|item: &'static str| item@) =~= seq![]);
    proof {
        reveal_strlit("actions");
        reveal_strlit("memory_proposals");
        crate::ordering::smaller_at("actions"@, "memory_proposals"@, 0);
    }
    object2("actions", actions, "memory_proposals", text_list(nothing))
}

fn synthesis_json() -> (made: Json)
    ensures
        made@ == synthesis(),
{
    let actions = array1(
        respond_json(
            "This workspace targets the Rust 2024 edition. That edition stabilised if-let chains and changed how return-position impl Trait captures lifetimes.",
        ),
    );
    let facts: Vec<&'static str> = vec!["The Seam workspace targets the Rust 2024 edition."];
    assert(facts@.map_values(|item: &'static str| item@) =~= seq![
        "The Seam workspace targets the Rust 2024 edition."@,
    ]);
    proof {
        reveal_strlit("actions");
        reveal_strlit("memory_proposals");
        crate::ordering::smaller_at("actions"@, "memory_proposals"@, 0);
    }
    object2("actions", actions, "memory_proposals", text_list(facts))
}

/// The orchestrator's two turns: delegate, then synthesise the worker's report.
///
/// The first one is greedy: it asks for write, execute and a capability that it was never
/// granted, to show the clamp working.
pub fn orchestrator_script() -> (replies: Vec<String>)
    ensures
        crate::json::texts(replies@) == seq![delegation().text(), synthesis().text()],
{
    let first = delegation_json();
    let second = synthesis_json();
    let replies = vec![first.to_text(), second.to_text()];
    assert(crate::json::texts(replies@) =~= seq![delegation().text(), synthesis().text()]);
    replies
}

// ---- the worker ---------------------------------------------------------------------

/// An action that runs a local operation.
pub open spec fn local_tree(operation: Seq<char>, arguments: Tree) -> Tree {
    Tree::Object(
        seq![
            ("arguments"@, arguments),
            ("operation"@, Tree::Text(operation)),
            ("type"@, Tree::Text("local"@)),
        ],
    )
}

/// The worker's turns.
pub open spec fn worker_turns() -> Seq<Tree> {
    seq![
        local_tree("list_dir"@, Tree::Object(seq![("path"@, Tree::Text("."@))])),
        local_tree(
            "read_file"@,
            Tree::Object(
                seq![
                    ("limit"@, Tree::Number(Num::Int(400))),
                    ("path"@, Tree::Text("Cargo.toml"@)),
                ],
            ),
        ),
        local_tree(
            "write_file"@,
            Tree::Object(
                seq![
                    ("content"@, Tree::Text("scratch"@)),
                    ("path"@, Tree::Text("notes.txt"@)),
                ],
            ),
        ),
        Tree::Object(
            seq![
                ("request"@, Tree::Text("Find out what the Rust 2024 edition changed."@)),
                ("type"@, Tree::Text("capability"@)),
            ],
        ),
        Tree::Object(
            seq![
                ("artifacts"@, Tree::Array(seq![])),
                (
                    "summary"@,
                    Tree::Text(
                        "The workspace sets edition 2024 in the root Cargo.toml. That edition stabilised if-let chains and changed RPIT lifetime capture."@,
                    ),
                ),
                ("type"@, Tree::Text("finish"@)),
            ],
        ),
    ]
}

fn local_json(operation: &str, arguments: Json) -> (made: Json)
    ensures
        made@ == local_tree(operation@, arguments@),
{
    proof {
        reveal_strlit("arguments");
        reveal_strlit("operation");
        reveal_strlit("type");
        crate::ordering::smaller_at("arguments"@, "operation"@, 0);
        crate::ordering::smaller_at("operation"@, "type"@, 0);
    }
    object3(
        "arguments",
        arguments,
        "operation",
        string(operation),
        "type",
        string("local"),
    )
}

fn no_items() -> (made: Json)
    ensures
        made@ == Tree::Array(seq![]),
{
    let made = Json::Array(Vec::new());
    assert(made@->Array_0 =~= seq![]);
    made
}

/// The worker's turns: look around, read the manifest, hit an authority boundary, use a
/// brokered capability, then report.
///
/// The write is denied, and the worker carries on. The capability is asked for in natural
/// language: no capability name, no provider, no arguments.
pub fn worker_script() -> (replies: Vec<String>)
    ensures
        crate::json::texts(replies@) == worker_turns().map_values(|turn: Tree| turn.text()),
{
    let list = local_json("list_dir", object1("path", string(".")));
    proof {
        reveal_strlit("limit");
        reveal_strlit("path");
        crate::ordering::smaller_at("limit"@, "path"@, 0);
    }
    let read = local_json(
        "read_file",
        object2("limit", count(400), "path", string("Cargo.toml")),
    );
    proof {
        reveal_strlit("content");
        reveal_strlit("path");
        crate::ordering::smaller_at("content"@, "path"@, 0);
    }
    let write = local_json(
        "write_file",
        object2("content", string("scratch"), "path", string("notes.txt")),
    );
    proof {
        reveal_strlit("request");
        reveal_strlit("type");
        crate::ordering::smaller_at("request"@, "type"@, 0);
    }
    let ask = object2(
        "request",
        string("Find out what the Rust 2024 edition changed."),
        "type",
        string("capability"),
    );
    proof {
        reveal_strlit("artifacts");
        reveal_strlit("summary");
        reveal_strlit("type");
        crate::ordering::smaller_at("artifacts"@, "summary"@, 0);
        crate::ordering::smaller_at("summary"@, "type"@, 0);
    }
    let finish = object3(
        "artifacts",
        no_items(),
        "summary",
        string(
            "The workspace sets edition 2024 in the root Cargo.toml. That edition stabilised if-let chains and changed RPIT lifetime capture.",
        ),
        "type",
        string("finish"),
    );
    let replies = vec![
        list.to_text(),
        read.to_text(),
        write.to_text(),
        ask.to_text(),
        finish.to_text(),
    ];
    assert(crate::json::texts(replies@) =~= worker_turns().map_values(|turn: Tree| turn.text()));
    replies
}

// ---- the broker ---------------------------------------------------------------------

/// The translation that the scripted SLM gives.
pub open spec fn translation() -> Tree {
    Tree::Object(
        seq![
            (
                "arguments"@,
                Tree::Object(seq![("query"@, Tree::Text("Rust 2024 edition changes"@))]),
            ),
            ("capability"@, Tree::Text("web.search"@)),
        ],
    )
}

/// The broker SLM's only job: turn a sentence into one validated capability call.
pub fn broker_script() -> (replies: Vec<String>)
    ensures
        crate::json::texts(replies@) == seq![translation().text()],
{
    proof {
        reveal_strlit("arguments");
        reveal_strlit("capability");
        crate::ordering::smaller_at("arguments"@, "capability"@, 0);
    }
    let reply = object2(
        "arguments",
        object1("query", string("Rust 2024 edition changes")),
        "capability",
        string("web.search"),
    );
    let replies = vec![reply.to_text()];
    assert(crate::json::texts(replies@) =~= seq![translation().text()]);
    replies
}

/// What the walkthrough's search provider answers, whatever it is asked.
pub open spec fn search_answer(arguments: Tree) -> Tree {
    Tree::Object(
        seq![
            ("echoed_arguments"@, arguments),
            (
                "note"@,
                Tree::Text(
                    "Demo provider; replace with any implementation of the provider port."@,
                ),
            ),
            (
                "results"@,
                Tree::Array(
                    seq![
                        Tree::Object(
                            seq![
                                (
                                    "snippet"@,
                                    Tree::Text(
                                        "The 2024 edition stabilises if-let chains and RPIT lifetime capture."@,
                                    ),
                                ),
                                ("title"@, Tree::Text("Rust 2024 edition — release notes"@)),
                            ],
                        ),
                    ],
                ),
            ),
        ],
    )
}

/// What the walkthrough's search provider answers, whatever it is asked.
pub fn search_result(arguments: Json) -> (made: Json)
    ensures
        made@ == search_answer(arguments@),
{
    proof {
        reveal_strlit("snippet");
        reveal_strlit("title");
        crate::ordering::smaller_at("snippet"@, "title"@, 0);
    }
    let found = object2(
        "snippet",
        string("The 2024 edition stabilises if-let chains and RPIT lifetime capture."),
        "title",
        string("Rust 2024 edition — release notes"),
    );
    proof {
        reveal_strlit("echoed_arguments");
        reveal_strlit("note");
        reveal_strlit("results");
        crate::ordering::smaller_at("echoed_arguments"@, "note"@, 0);
        crate::ordering::smaller_at("note"@, "results"@, 0);
    }
    object3(
        "echoed_arguments",
        arguments,
        "note",
        string("Demo provider; replace with any implementation of the provider port."),
        "results",
        array1(found),
    )
}

/// The provider echoes what it was asked, and an action says its kind and what it holds.
pub proof fn the_provider_echoes_its_arguments(arguments: Tree, text: Seq<char>)
    ensures
        search_answer(arguments).get("echoed_arguments"@) == Some(arguments),
        respond_tree(text).get("type"@) == Some(Tree::Text("respond"@)),
        respond_tree(text).get("text"@) == Some(Tree::Text(text)),
        local_tree(text, arguments).get("type"@) == Some(Tree::Text("local"@)),
        local_tree(text, arguments).get("operation"@) == Some(Tree::Text(text)),
        local_tree(text, arguments).get("arguments"@) == Some(arguments),
{
    reveal_strlit("text");
    reveal_strlit("type");
    reveal_strlit("operation");
    reveal_strlit("arguments");
    assert("text"@.len() == 4 && "text"@[1] == 'e');
    assert("type"@.len() == 4 && "type"@[1] == 'y');
    assert("operation"@.len() == 9 && "operation"@[0] == 'o');
    assert("arguments"@.len() == 9 && "arguments"@[0] == 'a');
    crate::json::members_are_read_by_name(search_answer(arguments)->Object_0, 0, ""@);
    crate::json::members_are_read_by_name(respond_tree(text)->Object_0, 0, ""@);
    crate::json::members_are_read_by_name(respond_tree(text)->Object_0, 1, ""@);
    crate::json::members_are_read_by_name(local_tree(text, arguments)->Object_0, 0, ""@);
    crate::json::members_are_read_by_name(local_tree(text, arguments)->Object_0, 1, ""@);
    crate::json::members_are_read_by_name(local_tree(text, arguments)->Object_0, 2, ""@);
}

} // verus!
