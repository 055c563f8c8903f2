//! What is shown of models, and how one is selected.

use crate::text::{
    beginnings_are_held, beginnings_begin_alike, decimal, decimal_text, ends_occur, first_index,
    first_marks_are_first, join, joined, longer_texts_hold_the_same, occurs, split_once,
    text_eq, views,
};
use vstd::prelude::*;
use vstd::string::*;

verus! {

/// What is known of a model.
#[derive(Debug, PartialEq, Eq)]
pub struct ModelDescriptor {
    pub id: String,
    pub display_name: String,
    pub input_modalities: Vec<String>,
    pub reasoning_efforts: Vec<String>,
    pub default_reasoning_effort: Option<String>,
    pub reasoning: Option<bool>,
    pub context_tokens: Option<u64>,
    pub tools: Option<bool>,
}

/// The models of one connection.
#[derive(Debug, PartialEq, Eq)]
pub struct ConnectionModels {
    pub id: String,
    pub managed: bool,
    pub kind: String,
    pub models: Vec<ModelDescriptor>,
}

/// A connection and one of its models.
#[derive(Debug, PartialEq, Eq)]
pub struct ModelChoice {
    pub connection: String,
    pub model: String,
}

/// What is known of a capability.
pub open spec fn known(value: Option<bool>) -> Seq<char> {
    match value {
        Some(true) => "yes"@,
        Some(false) => "no"@,
        None => "unknown"@,
    }
}

/// What is said of a model's reasoning.
pub open spec fn reasoning_text(model: ModelDescriptor) -> Seq<char> {
    let efforts = joined(views(model.reasoning_efforts@), ","@);
    if efforts.len() == 0 {
        match model.reasoning {
            Some(true) => "yes (provider-controlled)"@,
            Some(false) => "no"@,
            None => "unknown"@,
        }
    } else {
        efforts + " (default "@ + (match model.default_reasoning_effort {
            Some(effort) => effort@,
            None => "unspecified"@,
        }) + ")"@
    }
}

fn say_reasoning(model: &ModelDescriptor) -> (text: String)
    ensures
        text@ == reasoning_text(*model),
{
    let efforts = join(&model.reasoning_efforts, ",");
    if efforts.as_str().is_empty() {
        match model.reasoning {
            Some(true) => "yes (provider-controlled)".to_owned(),
            Some(false) => "no".to_owned(),
            None => "unknown".to_owned(),
        }
    } else {
        let mut text = efforts;
        text.append(" (default ");
        match &model.default_reasoning_effort {
            Some(effort) => text.append(effort.as_str()),
            None => text.append("unspecified"),
        }
        text.append(")");
        text
    }
}

/// The row of a model.
pub open spec fn model_row(
    output: Seq<char>,
    connection: Seq<char>,
    model: ModelDescriptor,
    selected: ModelChoice,
) -> Seq<char> {
    output + "  "@ + (if connection == selected.connection@ && model.id@ == selected.model@ {
        "*"@
    } else {
        " "@
    }) + " "@ + model.id@ + "\tinput="@ + joined(views(model.input_modalities@), ","@) + "\ttools="@
        + known(model.tools) + "\treasoning="@ + reasoning_text(model) + "\tcontext="@ + (
    match model.context_tokens {
        Some(tokens) => decimal(tokens as nat),
        None => "unknown"@,
    }) + "\t"@ + model.display_name@ + "\n"@
}

fn write_model(
    output: &mut String,
    connection: &str,
    model: &ModelDescriptor,
    selected: &ModelChoice,
)
    ensures
        final(output)@ == model_row(old(output)@, connection@, *model, *selected),
{
    output.append("  ");
    output.append(
        if text_eq(connection, selected.connection.as_str()) && text_eq(
            model.id.as_str(),
            selected.model.as_str(),
        ) {
            "*"
        } else {
            " "
        },
    );
    output.append(" ");
    output.append(model.id.as_str());
    output.append("\tinput=");
    output.append(join(&model.input_modalities, ",").as_str());
    output.append("\ttools=");
    output.append(
        match model.tools {
            Some(true) => "yes",
            Some(false) => "no",
            None => "unknown",
        },
    );
    output.append("\treasoning=");
    output.append(say_reasoning(model).as_str());
    output.append("\tcontext=");
    match model.context_tokens {
        Some(tokens) => output.append(decimal_text(tokens).as_str()),
        None => output.append("unknown"),
    }
    output.append("\t");
    output.append(model.display_name.as_str());
    output.append("\n");
}

/// The rows of the models of one connection.
pub open spec fn model_rows(
    output: Seq<char>,
    connection: Seq<char>,
    models: Seq<ModelDescriptor>,
    selected: ModelChoice,
) -> Seq<char>
    decreases models.len(),
{
    if models.len() == 0 {
        output
    } else {
        model_row(
            model_rows(output, connection, models.drop_last(), selected),
            connection,
            models.last(),
            selected,
        )
    }
}

/// The section of one connection.
pub open spec fn connection_section(
    output: Seq<char>,
    connection: ConnectionModels,
    selected: ModelChoice,
) -> Seq<char> {
    model_rows(
        output + connection.id@ + " ("@ + (if connection.managed {
            "managed"@
        } else {
            "native"@
        }) + ", "@ + connection.kind@ + ")\n"@,
        connection.id@,
        connection.models@,
        selected,
    )
}

/// The sections of all connections, or of the one that is asked for.
pub open spec fn connection_sections(
    output: Seq<char>,
    connections: Seq<ConnectionModels>,
    only: Option<Seq<char>>,
    selected: ModelChoice,
) -> Seq<char>
    decreases connections.len(),
{
    if connections.len() == 0 {
        output
    } else {
        let earlier = connection_sections(output, connections.drop_last(), only, selected);
        if only matches Some(id) && id != connections.last().id@ {
            earlier
        } else {
            connection_section(earlier, connections.last(), selected)
        }
    }
}

/// Lists models: the effective and the configured choice, and the models of each
/// connection, or of one of them.
pub fn list_models(
    selected: &ModelChoice,
    configured: &ModelChoice,
    connections: &Vec<ConnectionModels>,
    only: Option<&str>,
    output: &mut String,
)
    ensures
        final(output)@ == connection_sections(
            old(output)@ + "effective selection: "@ + selected.connection@ + "/"@ + selected.model@
                + " (saved override when present; otherwise the configured default)\nconfigured default: "@
                + configured.connection@ + "/"@ + configured.model@
                + " (default profile in config.toml)\n"@,
            connections@,
            (match only {
                Some(id) => Some(id@),
                None => None,
            }),
            *selected,
        ),
{
    output.append("effective selection: ");
    output.append(selected.connection.as_str());
    output.append("/");
    output.append(selected.model.as_str());
    output.append(
        " (saved override when present; otherwise the configured default)\nconfigured default: ",
    );
    output.append(configured.connection.as_str());
    output.append("/");
    output.append(configured.model.as_str());
    output.append(" (default profile in config.toml)\n");
    let ghost start = output@;
    let ghost wanted = match only {
        Some(id) => Some(id@),
        None => None,
    };
    let mut i: usize = 0;
    while i < connections.len()
        invariant
            wanted == (match only {
                Some(id) => Some(id@),
                None => None,
            }),
            i <= connections@.len(),
            output@ == connection_sections(start, connections@.take(i as int), wanted, *selected),
        decreases connections@.len() - i,
    {
        assert(connections@.take(i + 1).drop_last() =~= connections@.take(i as int));
        assert(connections@.take(i + 1).last() == connections@[i as int]);
        let connection = &connections[i];
        let shown = match only {
            Some(id) => text_eq(id, connection.id.as_str()),
            None => true,
        };
        if shown {
            write_section(output, connection, selected);
        }
        i += 1;
    }
    assert(connections@.take(i as int) =~= connections@);
}

fn write_section(output: &mut String, connection: &ConnectionModels, selected: &ModelChoice)
    ensures
        final(output)@ == connection_section(old(output)@, *connection, *selected),
{
    output.append(connection.id.as_str());
    output.append(" (");
    output.append(
        if connection.managed {
            "managed"
        } else {
            "native"
        },
    );
    output.append(", ");
    output.append(connection.kind.as_str());
    output.append(")\n");
    let ghost start = output@;
    let mut i: usize = 0;
    while i < connection.models.len()
        invariant
            i <= connection.models@.len(),
            output@ == model_rows(
                start,
                connection.id@,
                connection.models@.take(i as int),
                *selected,
            ),
        decreases connection.models@.len() - i,
    {
        assert(connection.models@.take(i + 1).drop_last() =~= connection.models@.take(i as int));
        write_model(output, connection.id.as_str(), &connection.models[i], selected);
        i += 1;
    }
    assert(connection.models@.take(i as int) =~= connection.models@);
}

pub const BAD_SELECTION: &'static str = "model selection must be CONNECTION/MODEL";

/// Reads a selection: all before the first `/` names the connection.
pub fn parse_selection(selection: &str) -> (choice: Result<ModelChoice, String>)
    ensures
        ({
            let at = first_index(selection@, '/') as int;
            if at < selection@.len() {
                &&& choice matches Ok(choice)
                &&& choice.connection@ == selection@.take(at)
                &&& choice.model@ == selection@.skip(at + 1)
            } else {
                choice matches Err(text) && text@ == BAD_SELECTION@
            }
        }),
{
    match split_once(selection, '/') {
        Some((connection, model)) => Ok(ModelChoice { connection, model }),
        None => Err(BAD_SELECTION.to_owned()),
    }
}

/// The effort that is asked for: `auto` asks for none.
pub open spec fn effort_of(effort: Option<String>) -> Option<String> {
    match effort {
        Some(effort) if effort@ != "auto"@ => Some(effort),
        _ => None,
    }
}

/// Reads the effort that is asked for.
pub fn asked_effort(effort: Option<String>) -> (asked: Option<String>)
    ensures
        asked == effort_of(effort),
{
    match effort {
        Some(effort) => if text_eq(effort.as_str(), "auto") {
            None
        } else {
            Some(effort)
        },
        None => None,
    }
}

/// What is asked for about models.
#[derive(Debug, PartialEq, Eq)]
pub enum ModelCommand {
    Use { selection: String, effort: Option<String>, summary: Option<String> },
    Refresh { connection: String },
    List { connection: Option<String> },
}

/// What a command about models does.
#[derive(Debug, PartialEq, Eq)]
pub enum ModelWork {
    /// Select a model for the next conversation, and report it.
    Select { choice: ModelChoice, effort: Option<String>, summary: Option<String> },
    Refresh { connection: String },
    /// List models, and perhaps say how one is selected.
    List { only: Option<String>, hint: Option<&'static str> },
}

pub const SELECT_HINT: &'static str = "select with: xana model use CONNECTION/MODEL";

/// Whether work is what a command about models asks for.
pub open spec fn asks_models(
    command: Option<ModelCommand>,
    work: Result<ModelWork, String>,
) -> bool {
    match command {
        Some(ModelCommand::Use { selection, effort, summary }) => {
            let at = first_index(selection@, '/') as int;
            if at < selection@.len() {
                &&& work matches Ok(ModelWork::Select { choice, effort: asked, summary: held })
                &&& choice.connection@ == selection@.take(at)
                &&& choice.model@ == selection@.skip(at + 1)
                &&& asked == effort_of(effort)
                &&& held == summary
            } else {
                work matches Err(text) && text@ == BAD_SELECTION@
            }
        },
        Some(ModelCommand::Refresh { connection }) => work == Ok::<ModelWork, String>(
            ModelWork::Refresh { connection },
        ),
        Some(ModelCommand::List { connection }) => work == Ok::<ModelWork, String>(
            ModelWork::List { only: connection, hint: None },
        ),
        None => {
            &&& work matches Ok(ModelWork::List { only, hint: Some(text) })
            &&& only is None
            &&& text@ == SELECT_HINT@
        },
    }
}

/// What a command about models does; without one, models are listed with a hint.
pub fn model_work(command: Option<ModelCommand>) -> (work: Result<ModelWork, String>)
    ensures
        asks_models(command, work),
{
    match command {
        Some(ModelCommand::Use { selection, effort, summary }) => match parse_selection(
            selection.as_str(),
        ) {
            Ok(choice) => Ok(
                ModelWork::Select { choice, effort: asked_effort(effort), summary },
            ),
            Err(text) => Err(text),
        },
        Some(ModelCommand::Refresh { connection }) => Ok(ModelWork::Refresh { connection }),
        Some(ModelCommand::List { connection }) => Ok(
            ModelWork::List { only: connection, hint: None },
        ),
        None => Ok(ModelWork::List { only: None, hint: Some(SELECT_HINT) }),
    }
}

/// Reports a selection.
pub fn write_selection(
    choice: &ModelChoice,
    effort: &Option<String>,
    summary: &Option<String>,
    semantic_code: &str,
    output: &mut String,
)
    ensures
        final(output)@ == (if *effort is Some || *summary is Some {
            old(output)@ + "selected "@ + choice.connection@ + "/"@ + choice.model@
                + " for the next conversation\n"@ + "reasoning effort: "@ + (match *effort {
                Some(effort) => effort@,
                None => "model default"@,
            }) + "; summary: "@ + (match *summary {
                Some(summary) => summary@,
                None => "provider default"@,
            }) + "\n"@
        } else {
            old(output)@ + "selected "@ + choice.connection@ + "/"@ + choice.model@
                + " for the next conversation\n"@
        }) + "receipt: "@ + semantic_code@ + "\n"@,
{
    output.append("selected ");
    output.append(choice.connection.as_str());
    output.append("/");
    output.append(choice.model.as_str());
    output.append(" for the next conversation\n");
    if effort.is_some() || summary.is_some() {
        output.append("reasoning effort: ");
        match effort {
            Some(effort) => output.append(effort.as_str()),
            None => output.append("model default"),
        }
        output.append("; summary: ");
        match summary {
            Some(summary) => output.append(summary.as_str()),
            None => output.append("provider default"),
        }
        output.append("\n");
    }
    output.append("receipt: ");
    output.append(semantic_code);
    output.append("\n");
}

/// A selection is read as the two names that it is written with: joined by a slash
/// they are the selection again, and the name of the connection holds no slash. What
/// holds no slash is refused.
pub proof fn selections_are_read_as_written(
    selection: &str,
    choice: Result<ModelChoice, String>,
)
    requires
        call_ensures(parse_selection, (selection,), choice),
    ensures
        choice is Ok <==> selection@.contains('/'),
        choice matches Ok(choice) ==> {
            &&& choice.connection@ + seq!['/'] + choice.model@ == selection@
            &&& !choice.connection@.contains('/')
        },
{
    let at = first_index(selection@, '/') as int;
    first_marks_are_first(selection@, '/');
    if at < selection@.len() {
        assert(selection@.contains('/'));
        assert(selection@.take(at) + seq!['/'] + selection@.skip(at + 1) =~= selection@);
        assert forall|i: int| 0 <= i < at implies #[trigger] selection@.take(at)[i] != '/' by {
            assert(selection@[i] != '/');
        }
    }
}

/// A command about models leads to work of its own sort, on what it names: the
/// selected model is the one that was written, a refresh is of the connection that
/// was named, and a list shows that connection only. An effort is passed on unless it
/// is `auto`, and a summary as it was given.
pub proof fn model_commands_are_carried_out(
    command: Option<ModelCommand>,
    work: Result<ModelWork, String>,
)
    requires
        call_ensures(model_work, (command,), work),
    ensures
        work is Err ==> (command matches Some(ModelCommand::Use { selection, .. })
            && !selection@.contains('/')),
        work matches Ok(ModelWork::Refresh { connection }) ==> command == Some(
            ModelCommand::Refresh { connection },
        ),
        work matches Ok(ModelWork::List { only, hint }) ==> {
            &&& command == (if hint is Some {
                None
            } else {
                Some(ModelCommand::List { connection: only })
            })
            &&& hint is Some ==> only is None
        },
        work matches Ok(ModelWork::Select { choice, effort: asked, summary: told }) ==> {
            &&& command matches Some(ModelCommand::Use { selection, effort, summary })
            &&& choice.connection@ + seq!['/'] + choice.model@ == selection@
            &&& told == summary
            &&& asked == effort || (asked is None && (effort matches Some(text) && text@
                == "auto"@))
            &&& !(asked matches Some(text) && text@ == "auto"@)
        },
{
    if let Some(ModelCommand::Use { selection, effort, summary }) = command {
        let at = first_index(selection@, '/') as int;
        first_marks_are_first(selection@, '/');
        if at < selection@.len() {
            assert(selection@.take(at) + seq!['/'] + selection@.skip(at + 1) =~= selection@);
        } else {
            assert forall|i: int| 0 <= i < selection@.len() implies selection@[i] != '/' by {}
        }
    }
}

/// Whether a list holds the row of a model under the mark of the selected one, or
/// under none.
pub open spec fn lists_model(text: Seq<char>, id: Seq<char>, chosen: bool) -> bool {
    occurs(
        text,
        if chosen {
            "  * "@ + id + "\t"@
        } else {
            "    "@ + id + "\t"@
        },
    )
}

proof fn rows_list_their_model(
    output: Seq<char>,
    connection: Seq<char>,
    model: ModelDescriptor,
    selected: ModelChoice,
)
    ensures
        output.is_prefix_of(model_row(output, connection, model, selected)),
        lists_model(
            model_row(output, connection, model, selected),
            model.id@,
            connection == selected.connection@ && model.id@ == selected.model@,
        ),
{
    reveal_strlit("  ");
    reveal_strlit("*");
    reveal_strlit(" ");
    reveal_strlit("  * ");
    reveal_strlit("    ");
    reveal_strlit("\tinput=");
    reveal_strlit("\t");
    let chosen = connection == selected.connection@ && model.id@ == selected.model@;
    let row = model_row(output, connection, model, selected);
    let part = if chosen {
        "  * "@ + model.id@ + "\t"@
    } else {
        "    "@ + model.id@ + "\t"@
    };
    assert(output =~= row.take(output.len() as int));
    assert(row.subrange(output.len() as int, output.len() as int + part.len()) =~= part);
}

proof fn all_rows_list_their_models(
    output: Seq<char>,
    connection: Seq<char>,
    models: Seq<ModelDescriptor>,
    selected: ModelChoice,
)
    ensures
        output.is_prefix_of(model_rows(output, connection, models, selected)),
        forall|i: int|
            0 <= i < models.len() ==> lists_model(
                model_rows(output, connection, models, selected),
                #[trigger] models[i].id@,
                connection == selected.connection@ && models[i].id@ == selected.model@,
            ),
    decreases models.len(),
{
    if models.len() > 0 {
        let earlier = model_rows(output, connection, models.drop_last(), selected);
        let whole = model_rows(output, connection, models, selected);
        all_rows_list_their_models(output, connection, models.drop_last(), selected);
        rows_list_their_model(earlier, connection, models.last(), selected);
        assert(earlier =~= whole.take(earlier.len() as int));
        assert(output =~= whole.take(output.len() as int));
        assert forall|i: int| 0 <= i < models.len() implies lists_model(
            whole,
            #[trigger] models[i].id@,
            connection == selected.connection@ && models[i].id@ == selected.model@,
        ) by {
            if i < models.len() - 1 {
                assert(models.drop_last()[i] == models[i]);
                let chosen = connection == selected.connection@ && models[i].id@
                    == selected.model@;
                let part = if chosen {
                    "  * "@ + models[i].id@ + "\t"@
                } else {
                    "    "@ + models[i].id@ + "\t"@
                };
                assert(earlier + whole.skip(earlier.len() as int) =~= whole);
                longer_texts_hold_the_same(earlier, whole.skip(earlier.len() as int), part);
            }
        }
    }
}

/// A list of models shows every model of every connection that is asked for, and it
/// marks the selected model and no other.
pub proof fn lists_show_every_model(
    output: Seq<char>,
    connections: Seq<ConnectionModels>,
    only: Option<Seq<char>>,
    selected: ModelChoice,
    connection: int,
    model: int,
)
    requires
        0 <= connection < connections.len(),
        0 <= model < connections[connection].models@.len(),
        only matches Some(id) ==> id == connections[connection].id@,
    ensures
        lists_model(
            connection_sections(output, connections, only, selected),
            connections[connection].models@[model].id@,
            connections[connection].id@ == selected.connection@
                && connections[connection].models@[model].id@ == selected.model@,
        ),
    decreases connections.len(),
{
    let earlier = connection_sections(output, connections.drop_last(), only, selected);
    let last = connections.last();
    let held = connections[connection];
    let head = earlier + last.id@ + " ("@ + (if last.managed {
        "managed"@
    } else {
        "native"@
    }) + ", "@ + last.kind@ + ")\n"@;
    all_rows_list_their_models(head, last.id@, last.models@, selected);
    if connection < connections.len() - 1 {
        lists_show_every_model(
            output,
            connections.drop_last(),
            only,
            selected,
            connection,
            model,
        );
        if !(only matches Some(id) && id != last.id@) {
            let whole = connection_section(earlier, last, selected);
            assert(earlier =~= head.take(earlier.len() as int));
            assert(earlier =~= whole.take(earlier.len() as int));
            assert(earlier + whole.skip(earlier.len() as int) =~= whole);
            let chosen = held.id@ == selected.connection@ && held.models@[model].id@
                == selected.model@;
            let part = if chosen {
                "  * "@ + held.models@[model].id@ + "\t"@
            } else {
                "    "@ + held.models@[model].id@ + "\t"@
            };
            longer_texts_hold_the_same(earlier, whole.skip(earlier.len() as int), part);
        }
    }
}

/// A connection that is not asked for is not listed.
pub proof fn other_connections_are_left_out(
    output: Seq<char>,
    connections: Seq<ConnectionModels>,
    only: Seq<char>,
    selected: ModelChoice,
)
    requires
        forall|i: int| 0 <= i < connections.len() ==> #[trigger] connections[i].id@ != only,
    ensures
        connection_sections(output, connections, Some(only), selected) == output,
    decreases connections.len(),
{
    if connections.len() > 0 {
        assert(connections.last() == connections[connections.len() - 1]);
        assert forall|i: int| 0 <= i < connections.drop_last().len() implies
            #[trigger] connections.drop_last()[i].id@ != only by {
            assert(connections.drop_last()[i] == connections[i]);
        }
        other_connections_are_left_out(output, connections.drop_last(), only, selected);
    }
}

/// What is known of a capability is said: an absent one, a present one and one of
/// which nothing is known read differently.
pub proof fn capabilities_are_told_apart()
    ensures
        known(Some(true)) == "yes"@,
        known(Some(false)) == "no"@,
        known(Some(true)) != known(Some(false)),
        known(Some(true)) != known(None),
        known(Some(false)) != known(None),
{
    reveal_strlit("yes");
    reveal_strlit("no");
    reveal_strlit("unknown");
    assert("yes"@[0] != "no"@[0]);
    assert("yes"@[0] != "unknown"@[0]);
    assert("no"@[0] != "unknown"@[0]);
}

/// The row of a model names it, what it takes, whether it uses tools, how it reasons and
/// what it is shown as, each behind its own label. The selected model is marked, and no
/// other is.
pub proof fn rows_tell_the_model(
    output: Seq<char>,
    connection: Seq<char>,
    model: ModelDescriptor,
    selected: ModelChoice,
)
    ensures
        occurs(model_row(output, connection, model, selected), " "@ + model.id@),
        occurs(
            model_row(output, connection, model, selected),
            "\tinput="@ + joined(views(model.input_modalities@), ","@),
        ),
        occurs(model_row(output, connection, model, selected), "\ttools="@ + known(model.tools)),
        occurs(
            model_row(output, connection, model, selected),
            "\treasoning="@ + reasoning_text(model),
        ),
        occurs(model_row(output, connection, model, selected), "\t"@ + model.display_name@),
        model.context_tokens matches Some(tokens) ==> occurs(
            model_row(output, connection, model, selected),
            "\tcontext="@ + decimal(tokens as nat),
        ),
        model_row(output, connection, model, selected).len() > output.len() + 2,
        model_row(output, connection, model, selected)[output.len() as int + 2] == '*'
            <==> connection == selected.connection@ && model.id@ == selected.model@,
{
    reveal_strlit("*");
    reveal_strlit(" ");
    reveal_strlit("  ");
    let mark = if connection == selected.connection@ && model.id@ == selected.model@ {
        "*"@
    } else {
        " "@
    };
    let context = match model.context_tokens {
        Some(tokens) => decimal(tokens as nat),
        None => "unknown"@,
    };
    let whole = model_row(output, connection, model, selected);
    let t1 = output + "  "@ + mark + " "@;
    let t2 = t1 + model.id@;
    let t3 = t2 + "\tinput="@;
    let t4 = t3 + joined(views(model.input_modalities@), ","@);
    let t5 = t4 + "\ttools="@;
    let t6 = t5 + known(model.tools);
    let t7 = t6 + "\treasoning="@;
    let t8 = t7 + reasoning_text(model);
    let t9 = t8 + "\tcontext="@;
    let t10 = t9 + context;
    let t11 = t10 + "\t"@;
    let t12 = t11 + model.display_name@;
    let t13 = t12 + "\n"@;
    assert(t13.is_prefix_of(whole));
    beginnings_begin_alike(t12, "\n"@, whole);
    beginnings_begin_alike(t11, model.display_name@, whole);
    beginnings_begin_alike(t10, "\t"@, whole);
    beginnings_begin_alike(t9, context, whole);
    beginnings_begin_alike(t8, "\tcontext="@, whole);
    beginnings_begin_alike(t7, reasoning_text(model), whole);
    beginnings_begin_alike(t6, "\treasoning="@, whole);
    beginnings_begin_alike(t5, known(model.tools), whole);
    beginnings_begin_alike(t4, "\ttools="@, whole);
    beginnings_begin_alike(t3, joined(views(model.input_modalities@), ","@), whole);
    beginnings_begin_alike(t2, "\tinput="@, whole);
    ends_occur(output + "  "@ + mark, " "@, model.id@);
    beginnings_are_held(t2, whole, " "@ + model.id@);
    ends_occur(t2, "\tinput="@, joined(views(model.input_modalities@), ","@));
    beginnings_are_held(t4, whole, "\tinput="@ + joined(views(model.input_modalities@), ","@));
    ends_occur(t4, "\ttools="@, known(model.tools));
    beginnings_are_held(t6, whole, "\ttools="@ + known(model.tools));
    ends_occur(t6, "\treasoning="@, reasoning_text(model));
    beginnings_are_held(t8, whole, "\treasoning="@ + reasoning_text(model));
    ends_occur(t10, "\t"@, model.display_name@);
    beginnings_are_held(t12, whole, "\t"@ + model.display_name@);
    ends_occur(t8, "\tcontext="@, context);
    beginnings_are_held(t10, whole, "\tcontext="@ + context);
    let start = output + "  "@ + mark;
    assert(whole[output.len() as int + 2] == start[output.len() as int + 2]) by {
        beginnings_begin_alike(start, " "@, whole);
        assert(whole.subrange(0, start.len() as int)[output.len() as int + 2]
            == whole[output.len() as int + 2]);
    }
}

/// A model that names the efforts it reasons with is told by them, and any other by whether
/// it reasons at all.
pub proof fn reasoning_is_told(model: ModelDescriptor)
    ensures
        joined(views(model.reasoning_efforts@), ","@).len() > 0 ==> joined(
            views(model.reasoning_efforts@),
            ","@,
        ).is_prefix_of(reasoning_text(model)),
        joined(views(model.reasoning_efforts@), ","@).len() == 0 ==> (model.reasoning
            == Some(false) ==> reasoning_text(model) == "no"@) && (model.reasoning is None
            ==> reasoning_text(model) == "unknown"@) && (model.reasoning == Some(true)
            ==> reasoning_text(model) == "yes (provider-controlled)"@),
{
    let efforts = joined(views(model.reasoning_efforts@), ","@);
    if efforts.len() > 0 {
        let effort = match model.default_reasoning_effort {
            Some(effort) => effort@,
            None => "unspecified"@,
        };
        let whole = reasoning_text(model);
        assert((efforts + " (default "@ + effort + ")"@).is_prefix_of(whole));
        beginnings_begin_alike(efforts + " (default "@ + effort, ")"@, whole);
        beginnings_begin_alike(efforts + " (default "@, effort, whole);
        beginnings_begin_alike(efforts, " (default "@, whole);
    }
}

/// A selection is told by the connection and the model that were selected, and with the code
/// of its receipt.
pub proof fn selections_are_told(
    choice: &ModelChoice,
    effort: &Option<String>,
    summary: &Option<String>,
    semantic_code: &str,
    output: &mut String,
)
    requires
        call_ensures(write_selection, (choice, effort, summary, semantic_code, output), ()),
    ensures
        occurs(final(output)@, "receipt: "@ + semantic_code@),
        occurs(final(output)@, "selected "@ + choice.connection@),
        occurs(final(output)@, "/"@ + choice.model@),
        old(output)@.is_prefix_of(final(output)@),
{
    let start = old(output)@;
    let whole = final(output)@;
    let t1 = start + "selected "@;
    let t2 = t1 + choice.connection@;
    let t3 = t2 + "/"@;
    let t4 = t3 + choice.model@;
    let t5 = t4 + " for the next conversation\n"@;
    let told = if *effort is Some || *summary is Some {
        t5 + "reasoning effort: "@ + (match *effort {
            Some(effort) => effort@,
            None => "model default"@,
        }) + "; summary: "@ + (match *summary {
            Some(summary) => summary@,
            None => "provider default"@,
        }) + "\n"@
    } else {
        t5
    };
    assert((told + "receipt: "@ + semantic_code@ + "\n"@).is_prefix_of(whole));
    ends_occur(told, "receipt: "@, semantic_code@);
    beginnings_begin_alike(told + "receipt: "@ + semantic_code@, "\n"@, whole);
    beginnings_are_held(
        told + "receipt: "@ + semantic_code@,
        whole,
        "receipt: "@ + semantic_code@,
    );
    beginnings_begin_alike(told + "receipt: "@, semantic_code@, whole);
    beginnings_begin_alike(told, "receipt: "@, whole);
    if *effort is Some || *summary is Some {
        let level = match *effort {
            Some(effort) => effort@,
            None => "model default"@,
        };
        let style = match *summary {
            Some(summary) => summary@,
            None => "provider default"@,
        };
        let r1 = t5 + "reasoning effort: "@;
        let r2 = r1 + level;
        let r3 = r2 + "; summary: "@;
        beginnings_begin_alike(r3 + style, "\n"@, whole);
        beginnings_begin_alike(r3, style, whole);
        beginnings_begin_alike(r2, "; summary: "@, whole);
        beginnings_begin_alike(r1, level, whole);
        beginnings_begin_alike(t5, "reasoning effort: "@, whole);
    }
    beginnings_begin_alike(t4, " for the next conversation\n"@, whole);
    beginnings_begin_alike(t3, choice.model@, whole);
    beginnings_begin_alike(t2, "/"@, whole);
    beginnings_begin_alike(t1, choice.connection@, whole);
    beginnings_begin_alike(start, "selected "@, whole);
    ends_occur(start, "selected "@, choice.connection@);
    beginnings_are_held(t2, whole, "selected "@ + choice.connection@);
    ends_occur(t2, "/"@, choice.model@);
    beginnings_are_held(t4, whole, "/"@ + choice.model@);
}

}
