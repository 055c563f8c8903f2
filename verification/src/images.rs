//! Focused image generation by the default profile's routes.

pub mod commands;

use crate::config::{
    allowed_by, as_name, find_profile, found_profiles_have_the_name, policy_classes,
    profile_index, ConnectionRegistry, PermissionMode,
};
use crate::mcp::{effective_permission, NO_DEFAULT_PROFILE};
use crate::outbound::OutboundDataClass;
use crate::text::{
    beginnings_are_held, copy_list, debug_text, decimal, decimal_text, occurs, option_view,
    parts_occur, quoted, utf8_of, utf8_text,
};
use vstd::prelude::*;
use vstd::string::*;

verus! {

/// The most bytes that a piped prompt may have.
pub const MAX_STDIN_PROMPT_BYTES: usize = 65536;

pub const PROMPT_LIMIT: &'static str = "stdin prompt exceeds the 64 KiB limit";

pub const PROMPT_UTF8: &'static str = "stdin prompt must be UTF-8";

pub const DENIED: &'static str = "image generation is denied by the default profile permission mode";

pub const NO_IMAGE_ROUTES: &'static str = "No image routes are exposed by the default profile.\n";

/// What the default profile exposes for images.
#[derive(Debug, PartialEq, Eq)]
pub struct ImageProfile {
    pub routes: Vec<String>,
    pub egress: Vec<OutboundDataClass>,
    pub permission: PermissionMode,
}

/// What the default profile exposes for images: its routes, the classes that its
/// policy allows to leave, and the permission in force.
pub fn default_profile(registry: &ConnectionRegistry) -> (profile: Result<ImageProfile, String>)
    ensures
        ({
            let at = profile_index(registry.profiles@, registry.default_profile@);
            if at >= registry.profiles@.len() {
                profile matches Err(text) && text@ == NO_DEFAULT_PROFILE@
            } else {
                let held = registry.profiles@[at as int];
                &&& profile matches Ok(exposed)
                &&& exposed.routes@ == held.service_routes@
                &&& exposed.egress@ == allowed_by(
                    registry.egress_policies@,
                    option_view(held.egress_policy),
                )
                &&& exposed.permission == effective_permission(*registry, held)
            }
        }),
{
    match find_profile(&registry.profiles, registry.default_profile.as_str()) {
        None => Err(NO_DEFAULT_PROFILE.to_owned()),
        Some(at) => {
            let held = &registry.profiles[at];
            Ok(
                ImageProfile {
                    routes: copy_list(&held.service_routes),
                    egress: policy_classes(
                        &registry.egress_policies,
                        as_name(&held.egress_policy),
                    ),
                    permission: match held.permission_mode {
                        Some(mode) => mode,
                        None => registry.permission_mode,
                    },
                },
            )
        },
    }
}

/// Reads a piped prompt of which at most one byte more than the limit was taken.
pub fn read_prompt(bytes: &Vec<u8>) -> (prompt: Result<String, String>)
    ensures
        if bytes@.len() > MAX_STDIN_PROMPT_BYTES {
            prompt matches Err(text) && text@ == PROMPT_LIMIT@
        } else {
            match utf8_of(bytes@) {
                Some(spelled) => prompt matches Ok(text) && text@ == spelled,
                None => prompt matches Err(text) && text@ == PROMPT_UTF8@,
            }
        },
{
    if bytes.len() > MAX_STDIN_PROMPT_BYTES {
        return Err(PROMPT_LIMIT.to_owned());
    }
    match utf8_text(bytes) {
        Some(text) => Ok(text),
        None => Err(PROMPT_UTF8.to_owned()),
    }
}

/// Whether images may be generated at all.
pub fn admit_generation(permission: PermissionMode) -> (admitted: Result<(), String>)
    ensures
        permission == PermissionMode::Deny ==> (admitted matches Err(text) && text@ == DENIED@),
        permission != PermissionMode::Deny ==> admitted is Ok,
{
    match permission {
        PermissionMode::Deny => Err(DENIED.to_owned()),
        _ => Ok(()),
    }
}

/// The route that a generation was planned for.
#[derive(Debug, PartialEq, Eq)]
pub struct PlannedRoute {
    pub name: String,
    pub connection: String,
    pub model: String,
}

/// Why an unapproved generation is refused.
pub open spec fn approval_refusal(route: PlannedRoute) -> Seq<char> {
    "image generation requires exact noninteractive approval; review route "@ + debug_text(
        route.name@,
    ) + ", provider "@ + debug_text(route.connection@) + ", model "@ + debug_text(route.model@)
        + ", outbound [prompt_text], cost [unknown], then rerun with --yes"@
}

/// What is said before an approved generation.
pub open spec fn generation_notice(route: PlannedRoute) -> Seq<char> {
    "Generating via route "@ + debug_text(route.name@) + ", connection "@ + debug_text(
        route.connection@,
    ) + ", model "@ + debug_text(route.model@) + "; outbound prompt_text; cost unknown...\n"@
}

/// Whether a planned generation was approved: nothing is sent without it.
pub fn admit_plan(route: &PlannedRoute, yes: bool) -> (notice: Result<String, String>)
    ensures
        if yes {
            notice matches Ok(text) && text@ == generation_notice(*route)
        } else {
            notice matches Err(text) && text@ == approval_refusal(*route)
        },
{
    if yes {
        let mut text = "Generating via route ".to_owned();
        text.append(quoted(route.name.as_str()).as_str());
        text.append(", connection ");
        text.append(quoted(route.connection.as_str()).as_str());
        text.append(", model ");
        text.append(quoted(route.model.as_str()).as_str());
        text.append("; outbound prompt_text; cost unknown...\n");
        Ok(text)
    } else {
        let mut text =
            "image generation requires exact noninteractive approval; review route ".to_owned();
        text.append(quoted(route.name.as_str()).as_str());
        text.append(", provider ");
        text.append(quoted(route.connection.as_str()).as_str());
        text.append(", model ");
        text.append(quoted(route.model.as_str()).as_str());
        text.append(", outbound [prompt_text], cost [unknown], then rerun with --yes");
        Err(text)
    }
}

/// Whether a route can be used, and why not.
#[derive(Debug, PartialEq, Eq)]
pub struct RouteStatus {
    pub route: String,
    pub ready: bool,
    pub reason: Option<String>,
}

/// A reason, or what is said where there is none.
pub open spec fn reason_or(reason: Option<String>, otherwise: Seq<char>) -> Seq<char> {
    match reason {
        Some(reason) => reason@,
        None => otherwise,
    }
}

/// The rows of routes.
pub open spec fn status_rows(output: Seq<char>, statuses: Seq<RouteStatus>) -> Seq<char>
    decreases statuses.len(),
{
    if statuses.len() == 0 {
        output
    } else {
        let status = statuses.last();
        status_rows(output, statuses.drop_last()) + status.route@ + "\t"@ + (if status.ready {
            "ready"@
        } else {
            "unavailable"@
        }) + "\t"@ + reason_or(status.reason, "configured"@) + "\n"@
    }
}

/// Lists the exposed routes.
pub fn write_routes(statuses: &Vec<RouteStatus>, output: &mut String)
    ensures
        final(output)@ == (if statuses@.len() == 0 {
            old(output)@ + NO_IMAGE_ROUTES@
        } else {
            status_rows(old(output)@, statuses@)
        }),
{
    if statuses.len() == 0 {
        output.append(NO_IMAGE_ROUTES);
        return;
    }
    let mut i: usize = 0;
    assert(statuses@.take(0) =~= Seq::<RouteStatus>::empty());
    while i < statuses.len()
        invariant
            i <= statuses@.len(),
            output@ == status_rows(old(output)@, statuses@.take(i as int)),
        decreases statuses@.len() - i,
    {
        assert(statuses@.take(i + 1).drop_last() =~= statuses@.take(i as int));
        let status = &statuses[i];
        output.append(status.route.as_str());
        output.append("\t");
        output.append(
            if status.ready {
                "ready"
            } else {
                "unavailable"
            },
        );
        output.append("\t");
        match &status.reason {
            Some(reason) => output.append(reason.as_str()),
            None => output.append("configured"),
        }
        output.append("\n");
        i += 1;
    }
    assert(statuses@.take(i as int) =~= statuses@);
}

/// Tells of one route.
pub fn write_route(status: &RouteStatus, output: &mut String)
    ensures
        final(output)@ == old(output)@ + "Route: "@ + status.route@ + "\nReady: "@ + (
        if status.ready {
            "true"@
        } else {
            "false"@
        }) + "\nReason: "@ + reason_or(status.reason, "configured and exposed"@) + "\n"@,
{
    output.append("Route: ");
    output.append(status.route.as_str());
    output.append("\nReady: ");
    output.append(
        if status.ready {
            "true"
        } else {
            "false"
        },
    );
    output.append("\nReason: ");
    match &status.reason {
        Some(reason) => output.append(reason.as_str()),
        None => output.append("configured and exposed"),
    }
    output.append("\n");
}

/// A generated image.
#[derive(Debug, PartialEq, Eq)]
pub struct ImageArtifact {
    pub id: String,
    pub media_type: String,
    pub bytes: u64,
    pub content_hash: String,
}

/// What came of a generation.
#[derive(Debug, PartialEq, Eq)]
pub struct ImageResult {
    pub route: String,
    pub model: String,
    pub artifacts: Vec<ImageArtifact>,
    pub cost_microusd: Option<u64>,
}

/// The lines of generated images.
pub open spec fn artifact_lines(output: Seq<char>, artifacts: Seq<ImageArtifact>) -> Seq<char>
    decreases artifacts.len(),
{
    if artifacts.len() == 0 {
        output
    } else {
        let artifact = artifacts.last();
        artifact_lines(output, artifacts.drop_last()) + "  Artifact: "@ + artifact.id@ + " ("@
            + artifact.media_type@ + "; "@ + decimal(artifact.bytes as nat) + " bytes; "@
            + artifact.content_hash@ + ")\n"@
    }
}

/// What is said of a generation.
pub open spec fn result_text(output: Seq<char>, result: ImageResult) -> Seq<char> {
    let told = artifact_lines(
        output + "Image generated.\n  Route: "@ + result.route@ + "\n  Model: "@ + result.model@
            + "\n"@,
        result.artifacts@,
    );
    match result.cost_microusd {
        Some(cost) => told + "  Cost: "@ + decimal(cost as nat) + " micro-USD\n"@,
        None => told + "  Cost: unavailable\n"@,
    }
}

/// Tells of a generation.
pub fn write_result(result: &ImageResult, output: &mut String)
    ensures
        final(output)@ == result_text(old(output)@, *result),
{
    output.append("Image generated.\n  Route: ");
    output.append(result.route.as_str());
    output.append("\n  Model: ");
    output.append(result.model.as_str());
    output.append("\n");
    let ghost start = output@;
    let mut i: usize = 0;
    assert(result.artifacts@.take(0) =~= Seq::<ImageArtifact>::empty());
    while i < result.artifacts.len()
        invariant
            i <= result.artifacts@.len(),
            output@ == artifact_lines(start, result.artifacts@.take(i as int)),
        decreases result.artifacts@.len() - i,
    {
        assert(result.artifacts@.take(i + 1).drop_last() =~= result.artifacts@.take(i as int));
        let artifact = &result.artifacts[i];
        output.append("  Artifact: ");
        output.append(artifact.id.as_str());
        output.append(" (");
        output.append(artifact.media_type.as_str());
        output.append("; ");
        output.append(decimal_text(artifact.bytes).as_str());
        output.append(" bytes; ");
        output.append(artifact.content_hash.as_str());
        output.append(")\n");
        i += 1;
    }
    assert(result.artifacts@.take(i as int) =~= result.artifacts@);
    match result.cost_microusd {
        Some(cost) => {
            output.append("  Cost: ");
            output.append(decimal_text(cost).as_str());
            output.append(" micro-USD\n");
        },
        None => output.append("  Cost: unavailable\n"),
    }
}

/// A piped prompt is read as the text that its bytes spell, whole, unless it is larger
/// than 64 KiB or spells none.
pub proof fn piped_prompts_are_read_whole(bytes: Vec<u8>, prompt: Result<String, String>)
    requires
        call_ensures(read_prompt, (&bytes,), prompt),
    ensures
        prompt is Ok <==> bytes@.len() <= 65536 && utf8_of(bytes@) is Some,
        prompt matches Ok(text) ==> Some(text@) == utf8_of(bytes@),
{
}

/// Images are generated unless the profile denies it, and a plan is carried out where it
/// was approved and nowhere else. Either way the owner is told the route, the connection
/// and the model.
pub proof fn plans_are_approved(route: PlannedRoute, yes: bool, notice: Result<String, String>)
    requires
        call_ensures(admit_plan, (&route, yes), notice),
    ensures
        notice is Ok <==> yes,
        ({
            let told = match notice {
                Ok(text) => text@,
                Err(text) => text@,
            };
            &&& occurs(told, debug_text(route.name@))
            &&& occurs(told, debug_text(route.connection@))
            &&& occurs(told, debug_text(route.model@))
        }),
{
    let name = debug_text(route.name@);
    let connection = debug_text(route.connection@);
    let model = debug_text(route.model@);
    let (front, between, end) = if yes {
        (
            "Generating via route "@,
            ", connection "@,
            "; outbound prompt_text; cost unknown...\n"@,
        )
    } else {
        (
            "image generation requires exact noninteractive approval; review route "@,
            ", provider "@,
            ", outbound [prompt_text], cost [unknown], then rerun with --yes"@,
        )
    };
    let text = front + name + between + connection + ", model "@ + model + end;
    parts_occur(front, name, between + connection + ", model "@ + model + end);
    assert(text =~= front + name + (between + connection + ", model "@ + model + end));
    parts_occur(front + name + between, connection, ", model "@ + model + end);
    assert(text =~= front + name + between + connection + (", model "@ + model + end));
    parts_occur(front + name + between + connection + ", model "@, model, end);
}

/// Images are refused where the profile denies them and nowhere else.
pub proof fn denied_images_are_refused(permission: PermissionMode, admitted: Result<(), String>)
    requires
        call_ensures(admit_generation, (permission,), admitted),
    ensures
        admitted is Err <==> permission == PermissionMode::Deny,
{
}

/// What the default profile exposes is its own: its routes, what its policy allows, and
/// its permission, or the general one where it has none.
pub proof fn image_profiles_are_the_default(
    registry: ConnectionRegistry,
    profile: Result<ImageProfile, String>,
)
    requires
        call_ensures(default_profile, (&registry,), profile),
    ensures
        profile is Err <==> forall|i: int|
            0 <= i < registry.profiles@.len() ==> #[trigger] registry.profiles@[i].name@
                != registry.default_profile@,
        profile matches Ok(exposed) ==> exists|i: int|
            0 <= i < registry.profiles@.len() && (#[trigger] registry.profiles@[i]).name@
                == registry.default_profile@ && exposed.routes@
                == registry.profiles@[i].service_routes@ && exposed.permission == (
            match registry.profiles@[i].permission_mode {
                Some(mode) => mode,
                None => registry.permission_mode,
            }),
{
    found_profiles_have_the_name(registry.profiles@, registry.default_profile@);
}

/// Every route is in the list, as ready where it is ready and as unavailable where it is
/// not.
pub proof fn routes_are_listed_as_they_are(
    output: Seq<char>,
    statuses: Seq<RouteStatus>,
    at: int,
)
    requires
        0 <= at < statuses.len(),
    ensures
        occurs(
            status_rows(output, statuses),
            statuses[at].route@ + (if statuses[at].ready {
                "\tready\t"@
            } else {
                "\tunavailable\t"@
            }),
        ),
    decreases statuses.len(),
{
    let earlier = status_rows(output, statuses.drop_last());
    let whole = status_rows(output, statuses);
    let status = statuses[at];
    let part = status.route@ + (if status.ready {
        "\tready\t"@
    } else {
        "\tunavailable\t"@
    });
    if at == statuses.len() - 1 {
        reveal_strlit("\t");
        reveal_strlit("ready");
        reveal_strlit("unavailable");
        reveal_strlit("\tready\t");
        reveal_strlit("\tunavailable\t");
        let end = reason_or(status.reason, "configured"@) + "\n"@;
        assert(whole =~= earlier + part + end);
        parts_occur(earlier, part, end);
    } else {
        routes_are_listed_as_they_are(output, statuses.drop_last(), at);
        assert(earlier =~= whole.take(earlier.len() as int));
        beginnings_are_held(earlier, whole, part);
    }
}

/// Every generated image is told of, under its identity and with its hash.
pub proof fn images_are_told_of(output: Seq<char>, artifacts: Seq<ImageArtifact>, at: int)
    requires
        0 <= at < artifacts.len(),
    ensures
        occurs(artifact_lines(output, artifacts), artifacts[at].id@),
        occurs(artifact_lines(output, artifacts), artifacts[at].content_hash@),
        occurs(artifact_lines(output, artifacts), decimal(artifacts[at].bytes as nat)),
    decreases artifacts.len(),
{
    let earlier = artifact_lines(output, artifacts.drop_last());
    let whole = artifact_lines(output, artifacts);
    let held = artifacts[at];
    let count = decimal(held.bytes as nat);
    if at == artifacts.len() - 1 {
        let front = earlier + "  Artifact: "@;
        let middle = " ("@ + held.media_type@ + "; "@;
        let end = " bytes; "@ + held.content_hash@ + ")\n"@;
        assert(whole =~= front + held.id@ + (middle + count + end));
        parts_occur(front, held.id@, middle + count + end);
        assert(whole =~= front + held.id@ + middle + count + end);
        parts_occur(front + held.id@ + middle, count, end);
        assert(whole =~= front + held.id@ + middle + count + " bytes; "@ + held.content_hash@
            + ")\n"@);
        parts_occur(
            front + held.id@ + middle + count + " bytes; "@,
            held.content_hash@,
            ")\n"@,
        );
    } else {
        images_are_told_of(output, artifacts.drop_last(), at);
        assert(earlier =~= whole.take(earlier.len() as int));
        beginnings_are_held(earlier, whole, held.id@);
        beginnings_are_held(earlier, whole, held.content_hash@);
        beginnings_are_held(earlier, whole, count);
    }
}

}
