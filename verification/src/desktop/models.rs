//! The models that a prompt offers.

use crate::text::{join, joined, joined_parts_occur, list_has, occurs, text_eq, views};
use vstd::prelude::*;
use vstd::string::*;

verus! {

/// A model of a connection.
#[derive(Debug, PartialEq, Eq)]
pub struct ModelOption {
    pub id: String,
    pub display_name: String,
    pub input_modalities: Vec<String>,
    pub tools: Option<bool>,
    pub reasoning: Option<bool>,
    pub reasoning_efforts: Vec<String>,
    pub context_tokens: Option<u64>,
    pub source: String,
}

/// A model as a prompt offers it.
#[derive(Debug, PartialEq, Eq)]
pub struct PromptModel {
    pub id: String,
    pub label: String,
    pub provider: String,
    pub description: String,
    pub context_window: Option<u64>,
}

pub const RETAINED_MODEL: &'static str = "Current retained Conversation selection";

/// The words, with or without one more.
pub open spec fn with_word(words: Seq<Seq<char>>, wanted: bool, word: Seq<char>) -> Seq<Seq<char>> {
    if wanted {
        words.push(word)
    } else {
        words
    }
}

/// What a model can do, in words.
pub open spec fn abilities(model: ModelOption) -> Seq<Seq<char>> {
    with_word(
        with_word(
            with_word(Seq::empty(), model.reasoning == Some(true), "reasoning"@),
            views(model.input_modalities@).contains("image"@),
            "vision"@,
        ),
        model.tools == Some(true),
        "tools"@,
    )
}

/// What is said of a model.
pub open spec fn description_of(model: ModelOption) -> Seq<char> {
    let told = joined(abilities(model), " · "@);
    if told.len() == 0 {
        model.source@
    } else {
        model.source@ + " · "@ + told
    }
}

/// Whether an offer is that of a model.
pub open spec fn offers(model: ModelOption, connection: Seq<char>, offer: PromptModel) -> bool {
    &&& offer.id == model.id
    &&& offer.label == model.display_name
    &&& offer.provider@ == connection
    &&& offer.description@ == description_of(model)
    &&& offer.context_window == model.context_tokens
}

fn describe(model: &ModelOption) -> (text: String)
    ensures
        text@ == description_of(*model),
{
    let mut words: Vec<String> = Vec::new();
    assert(views(words@) =~= Seq::<Seq<char>>::empty());
    if let Some(true) = model.reasoning {
        words.push("reasoning".to_owned());
        assert(views(words@) =~= seq!["reasoning"@]);
    }
    let ghost first = views(words@);
    if list_has(&model.input_modalities, "image") {
        words.push("vision".to_owned());
        assert(views(words@) =~= first.push("vision"@));
    }
    let ghost second = views(words@);
    if let Some(true) = model.tools {
        words.push("tools".to_owned());
        assert(views(words@) =~= second.push("tools"@));
    }
    assert(views(words@) =~= abilities(*model));
    let told = join(&words, " · ");
    let mut text = model.source.clone();
    if !told.as_str().is_empty() {
        text.append(" · ");
        text.append(told.as_str());
    }
    text
}

/// Whether a model is among those of a connection.
pub open spec fn has_model(options: Seq<ModelOption>, id: Seq<char>) -> bool {
    exists|i: int| 0 <= i < options.len() && (#[trigger] options[i]).id@ == id
}

/// Whether an offer is that of a model which the connection does not list, but
/// which the conversation has.
pub open spec fn offers_retained(selected: Seq<char>, connection: Seq<char>, offer: PromptModel) -> bool {
    &&& offer.id@ == selected
    &&& offer.label@ == selected
    &&& offer.provider@ == connection
    &&& offer.description@ == RETAINED_MODEL@
    &&& offer.context_window is None
}

/// Whether offers are those of a prompt: of the models of the connection, and
/// before them of the one that the conversation has, where it is not among them.
pub open spec fn offers_models(
    options: Seq<ModelOption>,
    connection: Seq<char>,
    selected: Seq<char>,
    offered: Seq<PromptModel>,
) -> bool {
    let extra: int = if has_model(options, selected) {
        0
    } else {
        1
    };
    &&& offered.len() == options.len() + extra
    &&& extra == 1 ==> offers_retained(selected, connection, offered[0])
    &&& forall|i: int|
        0 <= i < options.len() ==> offers(#[trigger] options[i], connection, offered[i + extra])
}

/// The models that a prompt offers: those of the connection, and before them the
/// one that the conversation has, where it is not among them.
pub fn prompt_models(options: &Vec<ModelOption>, connection: &str, selected: &str) -> (offered: Vec<
    PromptModel,
>)
    ensures
        offers_models(options@, connection@, selected@, offered@),
{
    let mut listed = false;
    let mut k: usize = 0;
    while k < options.len()
        invariant
            k <= options@.len(),
            listed == has_model(options@.take(k as int), selected@),
        decreases options@.len() - k,
    {
        proof {
            let upto = options@.take(k as int);
            let next = options@.take(k + 1);
            if has_model(upto, selected@) {
                let i = choose|i: int| 0 <= i < upto.len() && (#[trigger] upto[i]).id@ == selected@;
                assert(next[i].id@ == selected@);
            }
            assert(next[k as int] == options@[k as int]);
            if has_model(next, selected@) && options@[k as int].id@ != selected@ {
                let i = choose|i: int| 0 <= i < next.len() && (#[trigger] next[i]).id@ == selected@;
                assert(upto[i].id@ == selected@);
            }
        }
        if text_eq(options[k].id.as_str(), selected) {
            listed = true;
        }
        k += 1;
    }
    assert(options@.take(k as int) =~= options@);
    let mut offered: Vec<PromptModel> = Vec::new();
    let ghost extra: int = if listed {
        0
    } else {
        1
    };
    if !listed {
        offered.push(
            PromptModel {
                id: selected.to_owned(),
                label: selected.to_owned(),
                provider: connection.to_owned(),
                description: RETAINED_MODEL.to_owned(),
                context_window: None,
            },
        );
    }
    let mut i: usize = 0;
    while i < options.len()
        invariant
            i <= options@.len(),
            0 <= extra <= 1,
            offered@.len() == i + extra,
            extra == 1 ==> offers_retained(selected@, connection@, offered@[0]),
            forall|j: int|
                0 <= j < i ==> offers(#[trigger] options@[j], connection@, offered@[j + extra]),
        decreases options@.len() - i,
    {
        let model = &options[i];
        offered.push(
            PromptModel {
                id: model.id.clone(),
                label: model.display_name.clone(),
                provider: connection.to_owned(),
                description: describe(model),
                context_window: model.context_tokens,
            },
        );
        i += 1;
    }
    offered
}

/// A connection with its models.
#[derive(Debug, PartialEq, Eq)]
pub struct ConnectionModels {
    pub id: String,
    pub models: Vec<ModelOption>,
}

/// Where a connection stands, or how many there are.
pub open spec fn connection_index(connections: Seq<ConnectionModels>, id: Seq<char>) -> nat
    decreases connections.len(),
{
    if connections.len() == 0 || connections[0].id@ == id {
        0
    } else {
        1 + connection_index(connections.drop_first(), id)
    }
}

/// The models of a connection: none where it is not known.
pub fn model_options_for(connections: Vec<ConnectionModels>, connection: &str) -> (options: Vec<
    ModelOption,
>)
    ensures
        ({
            let at = connection_index(connections@, connection@);
            if at < connections@.len() {
                options == connections@[at as int].models
            } else {
                options@.len() == 0
            }
        }),
{
    let ghost all = connections@;
    let mut held = connections;
    let mut i: usize = 0;
    assert(all.skip(0) =~= all);
    while i < held.len()
        invariant
            held@ == all,
            all == connections@,
            i <= all.len(),
            connection_index(all, connection@) == i + connection_index(
                all.skip(i as int),
                connection@,
            ),
        decreases all.len() - i,
    {
        assert(all.skip(i as int).drop_first() =~= all.skip(i + 1));
        if text_eq(held[i].id.as_str(), connection) {
            let found = held.remove(i);
            return found.models;
        }
        i += 1;
    }
    Vec::new()
}

/// The model that a conversation has is always offered.
pub proof fn the_retained_model_is_offered(
    options: Seq<ModelOption>,
    connection: Seq<char>,
    selected: Seq<char>,
    offered: Seq<PromptModel>,
)
    requires
        offers_models(options, connection, selected, offered),
    ensures
        exists|i: int| 0 <= i < offered.len() && (#[trigger] offered[i]).id@ == selected,
{
    if has_model(options, selected) {
        let i = choose|i: int| 0 <= i < options.len() && (#[trigger] options[i]).id@ == selected;
        assert(offers(options[i], connection, offered[i + 0]));
        assert(offered[i].id@ == selected);
    } else {
        assert(offered[0].id@ == selected);
    }
}

/// Where a model stands, or how many there are.
pub open spec fn model_index(options: Seq<ModelOption>, id: Seq<char>) -> nat
    decreases options.len(),
{
    if options.len() == 0 || options[0].id@ == id {
        0
    } else {
        1 + model_index(options.drop_first(), id)
    }
}

/// The efforts that a model reasons with.
pub open spec fn efforts_of(options: Seq<ModelOption>, id: Seq<char>) -> Seq<String> {
    let at = model_index(options, id);
    if at < options.len() {
        options[at as int].reasoning_efforts@
    } else {
        Seq::empty()
    }
}

/// The efforts that can be chosen for a managed conversation, beside the choice to
/// leave it open; none for another conversation.
pub fn reasoning_choices(options: &Vec<ModelOption>, model: &str, managed: bool) -> (efforts: Option<
    Vec<String>,
>)
    ensures
        match efforts {
            Some(efforts) => managed && efforts@ == efforts_of(options@, model@),
            None => !managed,
        },
{
    if !managed {
        return None;
    }
    let mut i: usize = 0;
    assert(options@.skip(0) =~= options@);
    while i < options.len()
        invariant
            managed,
            i <= options@.len(),
            model_index(options@, model@) == i + model_index(options@.skip(i as int), model@),
        decreases options@.len() - i,
    {
        assert(options@.skip(i as int).drop_first() =~= options@.skip(i + 1));
        if text_eq(options[i].id.as_str(), model) {
            return Some(crate::text::copy_list(&options[i].reasoning_efforts));
        }
        i += 1;
    }
    let none: Vec<String> = Vec::new();
    assert(none@ =~= efforts_of(options@, model@));
    Some(none)
}

/// What a model can do is told where it can, and only there: reasoning, vision where it
/// takes images, and tools.
pub proof fn abilities_are_those_of_the_model(model: ModelOption)
    ensures
        abilities(model).contains("reasoning"@) <==> model.reasoning == Some(true),
        abilities(model).contains("vision"@) <==> views(model.input_modalities@).contains(
            "image"@,
        ),
        abilities(model).contains("tools"@) <==> model.tools == Some(true),
{
    reveal_strlit("reasoning");
    reveal_strlit("vision");
    reveal_strlit("tools");
    let one = "reasoning"@;
    let two = "vision"@;
    let three = "tools"@;
    assert(one[0] == 'r' && two[0] == 'v' && three[0] == 't');
    let reasons = model.reasoning == Some(true);
    let sees = views(model.input_modalities@).contains("image"@);
    let acts = model.tools == Some(true);
    let nothing = Seq::<Seq<char>>::empty();
    let first = with_word(nothing, reasons, one);
    let second = with_word(first, sees, two);
    let all = with_word(second, acts, three);
    if reasons {
        assert(first[0] == one);
        assert(second[0] == one);
        assert(all[0] == one);
    }
    if sees {
        assert(second[first.len() as int] == two);
        assert(all[first.len() as int] == two);
    }
    if acts {
        assert(all[second.len() as int] == three);
    }
    assert forall|i: int| 0 <= i < all.len() implies (all[i] == one && reasons) || (all[i] == two
        && sees) || (all[i] == three && acts) by {}
}

/// What is said of a model begins with where it comes from and tells each of its abilities.
pub proof fn descriptions_tell_the_abilities(model: ModelOption, at: int)
    requires
        0 <= at < abilities(model).len(),
    ensures
        model.source@.is_prefix_of(description_of(model)),
        occurs(description_of(model), abilities(model)[at]),
{
    let words = abilities(model);
    let told = joined(words, " · "@);
    let text = description_of(model);
    joined_parts_occur(words, " · "@, at);
    assert(model.source@ =~= text.take(model.source@.len() as int));
    let place = choose|i: int|
        0 <= i <= told.len() - words[at].len() && #[trigger] told.subrange(i, i + words[at].len())
            == words[at];
    if told.len() == 0 {
        assert(words[at] =~= Seq::<char>::empty());
        assert(text.subrange(0, 0) =~= words[at]);
    } else {
        let front = model.source@ + " · "@;
        assert(text.subrange(front.len() + place, front.len() + place + words[at].len())
            =~= told.subrange(place, place + words[at].len()));
    }
}

/// Every model of a connection is offered under its own identity and name, and nothing but
/// these and the one that the conversation has.
pub proof fn every_model_is_offered(
    options: Vec<ModelOption>,
    connection: &str,
    selected: &str,
    offered: Vec<PromptModel>,
)
    requires
        call_ensures(prompt_models, (&options, connection, selected), offered),
    ensures
        forall|i: int|
            0 <= i < options@.len() ==> exists|j: int|
                0 <= j < offered@.len() && (#[trigger] offered@[j]).id == (
                #[trigger] options@[i]).id && offered@[j].label == options@[i].display_name
                    && offered@[j].provider@ == connection@ && offered@[j].context_window
                    == options@[i].context_tokens,
        forall|j: int|
            0 <= j < offered@.len() ==> (#[trigger] offered@[j]).id@ == selected@ || has_model(
                options@,
                offered@[j].id@,
            ),
        offered@.len() <= options@.len() + 1,
{
    let extra: int = if has_model(options@, selected@) {
        0
    } else {
        1
    };
    assert forall|i: int| 0 <= i < options@.len() implies exists|j: int|
        0 <= j < offered@.len() && (#[trigger] offered@[j]).id == (#[trigger] options@[i]).id
            && offered@[j].label == options@[i].display_name && offered@[j].provider@ == connection@
            && offered@[j].context_window == options@[i].context_tokens by {
        assert(offers(options@[i], connection@, offered@[i + extra]));
    }
    assert forall|j: int| 0 <= j < offered@.len() implies (#[trigger] offered@[j]).id@ == selected@
        || has_model(options@, offered@[j].id@) by {
        if j >= extra {
            assert(offers(options@[j - extra], connection@, offered@[j - extra + extra]));
            assert(options@[j - extra].id@ == offered@[j].id@);
        }
    }
}

/// The models of a connection are those of the first one of its name, and there are none
/// where none has that name.
pub proof fn models_belong_to_their_connection(
    connections: Vec<ConnectionModels>,
    connection: &str,
    options: Vec<ModelOption>,
)
    requires
        call_ensures(model_options_for, (connections, connection), options),
    ensures
        options@.len() > 0 ==> exists|i: int|
            0 <= i < connections@.len() && (#[trigger] connections@[i]).id@ == connection@
                && connections@[i].models == options,
        (forall|i: int| 0 <= i < connections@.len() ==> #[trigger] connections@[i].id@ != connection@)
            ==> options@.len() == 0,
{
    connections_are_found(connections@, connection@);
}

proof fn connections_are_found(connections: Seq<ConnectionModels>, id: Seq<char>)
    ensures
        connection_index(connections, id) < connections.len() ==> connections[connection_index(
            connections,
            id,
        ) as int].id@ == id,
    decreases connections.len(),
{
    if connections.len() > 0 && connections[0].id@ != id {
        connections_are_found(connections.drop_first(), id);
    }
}

/// The efforts that can be chosen are those of the model, and they can be chosen for a
/// managed conversation only.
pub proof fn efforts_belong_to_their_model(
    options: Vec<ModelOption>,
    model: &str,
    managed: bool,
    efforts: Option<Vec<String>>,
)
    requires
        call_ensures(reasoning_choices, (&options, model, managed), efforts),
    ensures
        efforts is Some <==> managed,
        efforts matches Some(held) ==> held@.len() > 0 ==> exists|i: int|
            0 <= i < options@.len() && (#[trigger] options@[i]).id@ == model@
                && options@[i].reasoning_efforts@ == held@,
{
    models_are_found(options@, model@);
}

proof fn models_are_found(options: Seq<ModelOption>, id: Seq<char>)
    ensures
        model_index(options, id) < options.len() ==> options[model_index(options, id) as int].id@
            == id,
    decreases options.len(),
{
    if options.len() > 0 && options[0].id@ != id {
        models_are_found(options.drop_first(), id);
    }
}

}
