//! Properties that hold across the explorer's operations.
use vstd::prelude::*;

use crate::brain::{neighbor_scores, spec_intention_for, spec_possibilities, Intention};
use crate::config::NEEDS_MAGIC_NUMBER;
use crate::galaxy_map::GalaxyMap;
use crate::genetics::Brain as GeneticBrain;
use crate::explorer::{completes_move, delivery, orchestrator_step, planet_step, records_resources, Explorer};
use crate::messages::{Action, OrchestratorMessage, Outcome, PlanetMessage, Reply, ToOrchestrator};
use crate::resources::{
    can_craft, complex_at, complex_index, BasicResourceType, crafting_flag, lemma_resource_table_bijection, recipe, spec_resource_at,
    spec_resource_index, ComplexResourceType, ResourceType,
};
use crate::vector::{
    fits_ingredients, is_flags, lemma_dot_terms, spec_add_ingredients, spec_complex_needs, spec_decrease_need,
    spec_resource_needs,
    spec_dot,
};

verus! {

/// The crafting flag of a complex resource is set exactly when the bag holds
/// the ingredients of its recipe, and recording a combination request for it
/// raises the need of exactly those ingredients, one unit per unit consumed.
pub proof fn law_recipes_agree(bag: Seq<u64>, needs: Seq<u64>, c: ComplexResourceType, i: int)
    requires
        bag.len() == 10,
        needs.len() == 10,
        0 <= i < 10,
        forall|j: int| 0 <= j < 10 ==> #[trigger] needs[j] + 2 <= u64::MAX,
    ensures
        (crafting_flag(bag, complex_index(c)) == 1) <==> can_craft(bag, c),
        spec_add_ingredients(needs, c)[i] == needs[i] + (if recipe(c).0 == i { 1int } else { 0int }) + (
        if recipe(c).1 == i {
            1int
        } else {
            0int
        }),
{
    let (a, b) = recipe(c);
    assert(needs[a] + 2 <= u64::MAX);
    assert(needs[b] + 2 <= u64::MAX);
}

/// The explorer only ever weighs a resource that the planet makes, that the
/// bag allows, and that it needs.
pub proof fn law_weighted_resources_are_feasible(needs: Seq<u64>, caps: Seq<u64>, bag: Seq<u64>, i: int)
    requires
        needs.len() == 10,
        caps.len() == 10,
        bag.len() == 10,
        is_flags(caps),
        0 <= i < 10,
    ensures
        spec_possibilities(needs, caps, bag)[i] > 0 ==> {
            &&& caps[i] == 1
            &&& crafting_flag(bag, i) == 1
            &&& needs[i] > 0
        },
{
    let n = needs[i];
    let f = caps[i];
    let g = crafting_flag(bag, i);
    assert(f == 0 ==> n * f * g == 0) by (nonlinear_arith);
    assert(g == 0 ==> n * f * g == 0) by (nonlinear_arith);
    assert(n == 0 ==> n * f * g == 0) by (nonlinear_arith);
    if spec_possibilities(needs, caps, bag)[i] > 0 {
        assert(n * f * g > 0);
    }
}

/// Obtaining a resource never raises a need, and lowers at most the need
/// for that resource.
pub proof fn law_obtaining_never_raises_needs(needs: Seq<u64>, r: ResourceType, i: int)
    requires
        needs.len() == 10,
        0 <= i < 10,
    ensures
        spec_decrease_need(needs, r)[i] <= needs[i],
        i != spec_resource_index(r) ==> spec_decrease_need(needs, r)[i] == needs[i],
{
}

/// Obtaining a resource lowers its need by exactly one, or leaves it at zero.
pub proof fn law_obtaining_lowers_its_need(needs: Seq<u64>, r: ResourceType)
    requires
        needs.len() == 10,
    ensures
        needs[spec_resource_index(r)] > 0 ==> spec_decrease_need(needs, r)[spec_resource_index(r)]
            == needs[spec_resource_index(r)] - 1,
        needs[spec_resource_index(r)] == 0 ==> spec_decrease_need(needs, r) == needs,
{
    let i = spec_resource_index(r);
    if needs[i] == 0 {
        assert(spec_decrease_need(needs, r) =~= needs);
    }
}

/// Giving both ingredients of a failed combination back undoes the raise of
/// needs that recording the combination made.
pub proof fn law_failed_combination_restores_needs(needs: Seq<u64>, c: ComplexResourceType)
    requires
        needs.len() == 10,
        fits_ingredients(needs, c),
    ensures
        spec_decrease_need(
            spec_decrease_need(spec_add_ingredients(needs, c), spec_resource_at(recipe(c).0)),
            spec_resource_at(recipe(c).1),
        ) == needs,
{
    let (a, b) = recipe(c);
    lemma_resource_table_bijection(spec_resource_at(a), a);
    lemma_resource_table_bijection(spec_resource_at(b), b);
    assert(spec_decrease_need(
        spec_decrease_need(spec_add_ingredients(needs, c), spec_resource_at(a)),
        spec_resource_at(b),
    ) =~= needs);
}

/// Only a kill order stops the explorer, and it always does.
pub proof fn law_only_kill_stops<S>(
    old: Explorer<S>,
    new: Explorer<S>,
    msg: OrchestratorMessage<S>,
    now: u128,
    r: Reply,
)
    requires
        orchestrator_step(old, new, msg, now, r),
    ensures
        (r.outcome == Outcome::Killed) <==> (msg is KillExplorer),
{
}

/// Start leaves manual mode; stop and reset enter it; every other message
/// keeps the mode.
pub proof fn law_mode_changes<S>(
    old: Explorer<S>,
    new: Explorer<S>,
    msg: OrchestratorMessage<S>,
    now: u128,
    r: Reply,
)
    requires
        orchestrator_step(old, new, msg, now, r),
    ensures
        msg is StartExplorerAI ==> !new.spec_manual(),
        msg is StopExplorerAI || msg is ResetExplorerAI ==> new.spec_manual(),
        !(msg is StartExplorerAI || msg is StopExplorerAI || msg is ResetExplorerAI) ==> new.spec_manual()
            == old.spec_manual(),
        msg is ResetExplorerAI ==> new.spec_brain().spec_needs() == old.spec_brain().spec_needs(),
{
}

/// The explorer only ever writes to a planet it can reach.
pub proof fn law_planet_messages_need_a_channel<S>(
    old: Explorer<S>,
    new: Explorer<S>,
    msg: OrchestratorMessage<S>,
    now: u128,
    r: Reply,
    k: int,
)
    requires
        orchestrator_step(old, new, msg, now, r),
        0 <= k < r.actions@.len(),
        r.actions@[k] is Planet,
    ensures
        new.spec_stats().spec_has_sender(),
{
}

/// In AI mode the explorer keeps what the planet tells it to itself: no
/// answer to a planet message goes to the orchestrator.
pub proof fn law_ai_mode_is_quiet<S>(old: Explorer<S>, new: Explorer<S>, msg: PlanetMessage, r: Reply, k: int)
    requires
        planet_step(old, new, msg, r),
        !old.spec_manual(),
        0 <= k < r.actions@.len(),
    ensures
        !(r.actions@[k] is Orchestrator),
{
}

/// A planet message never lowers the performance score; it raises it only
/// when a resource arrives.
pub proof fn law_planet_messages_never_lower_performance<S>(
    old: Explorer<S>,
    new: Explorer<S>,
    msg: PlanetMessage,
    r: Reply,
)
    requires
        planet_step(old, new, msg, r),
    ensures
        new.spec_brain().spec_performance() >= old.spec_brain().spec_performance(),
        !(msg is GenerateResourceResponse || msg is CombineResourceResponse)
            ==> new.spec_brain().spec_performance() == old.spec_brain().spec_performance(),
{
}

/// No order of the orchestrator changes the performance score.
pub proof fn law_orders_keep_performance<S>(
    old: Explorer<S>,
    new: Explorer<S>,
    msg: OrchestratorMessage<S>,
    now: u128,
    r: Reply,
)
    requires
        orchestrator_step(old, new, msg, now, r),
    ensures
        new.spec_brain().spec_performance() == old.spec_brain().spec_performance(),
{
}

/// In manual mode the planet's list of what it generates is reported first
/// and recorded only once the report has been delivered: before that the
/// brain and the planet record are untouched, after it the list is recorded.
pub proof fn law_planet_lists_wait_for_the_report<S>(
    e0: Explorer<S>,
    e1: Explorer<S>,
    e2: Explorer<S>,
    resource_list: Vec<BasicResourceType>,
    r1: Reply,
    r2: Reply,
)
    requires
        e0.spec_manual(),
        planet_step(e0, e1, PlanetMessage::SupportedResourceResponse { resource_list }, r1),
        delivery(e1, e2, r2),
    ensures
        r1.outcome == Outcome::AwaitDelivery,
        e1.spec_brain() == e0.spec_brain(),
        e1.spec_stats() == e0.spec_stats(),
        records_resources(e0, e2, resource_list@),
        r2.actions@ == Seq::<Action>::empty(),
{
}

/// A move is reported first and made only once the report has been
/// delivered: before that nothing of the explorer changes but the waiting
/// move, after it the explorer stands on the new planet.
pub proof fn law_moves_wait_for_the_report<S>(
    e0: Explorer<S>,
    e1: Explorer<S>,
    e2: Explorer<S>,
    planet_id: u32,
    sender: Option<S>,
    now: u128,
    r1: Reply,
    r2: Reply,
)
    requires
        orchestrator_step(e0, e1, OrchestratorMessage::MoveToPlanet { sender_to_new_planet: sender, planet_id }, now, r1),
        delivery(e1, e2, r2),
    ensures
        r1.outcome == Outcome::AwaitDelivery,
        r1.actions@ == seq![Action::Orchestrator(ToOrchestrator::MovedToPlanetResult { explorer_id: e0.spec_id(), planet_id })],
        e1.spec_brain() == e0.spec_brain(),
        e1.spec_stats() == e0.spec_stats(),
        completes_move(e0, e2, planet_id, sender, now, r2.actions@),
        sender is Some ==> e2.spec_stats().spec_id() == Some(planet_id),
{
}

/// Working towards a complex resource puts the top need on it and a need on
/// what it is made of: both ingredients of its recipe (for the AI partner,
/// whose table names no diamond, the two carbons a diamond is made of), and,
/// for every complex resource needed on the way, both of its ingredients.
pub proof fn law_target_needs_follow_the_recipes(c: ComplexResourceType, j: int)
    requires
        4 <= j < 10,
    ensures
        spec_complex_needs(c).len() == 10,
        spec_complex_needs(c)[complex_index(c)] == NEEDS_MAGIC_NUMBER,
        c != ComplexResourceType::AIPartner ==> spec_complex_needs(c)[recipe(c).0] > 0 && spec_complex_needs(c)[recipe(
            c,
        ).1] > 0,
        c == ComplexResourceType::AIPartner ==> spec_complex_needs(c)[recipe(c).1] > 0 && spec_complex_needs(c)[recipe(
            complex_at(recipe(c).0),
        ).0] >= 2,
        j != complex_index(c) && spec_complex_needs(c)[j] > 0 ==> spec_complex_needs(c)[recipe(complex_at(j)).0] > 0
            && spec_complex_needs(c)[recipe(complex_at(j)).1] > 0,
{
}

/// A complex resource can be crafted from the bag exactly when the bag holds
/// one of each ingredient of its recipe (two of the one ingredient of a
/// diamond); a basic resource can always be obtained.
pub proof fn law_crafting_needs_every_ingredient(bag: Seq<u64>, c: ComplexResourceType, i: int)
    requires
        bag.len() == 10,
        0 <= i < 4,
    ensures
        crafting_flag(bag, i) == 1,
        recipe(c).0 != recipe(c).1 ==> (crafting_flag(bag, complex_index(c)) == 1 <==> bag[recipe(c).0] > 0
            && bag[recipe(c).1] > 0),
        recipe(c).0 == recipe(c).1 ==> (crafting_flag(bag, complex_index(c)) == 1 <==> bag[recipe(c).0] >= 2),
        crafting_flag(bag, complex_index(c)) <= 1,
{
    lemma_resource_table_bijection(ResourceType::Complex(c), 0);
}

/// A drawn position stands for the resource at that position of the table:
/// a basic one is generated, a complex one combined; a position past the
/// table asks for nothing.
pub proof fn law_drawn_positions_name_their_resource(choice: int)
    requires
        0 <= choice,
    ensures
        choice < 4 ==> (spec_intention_for(choice) matches Intention::Generate(Some(b)) && spec_resource_index(
            ResourceType::Basic(b),
        ) == choice),
        4 <= choice < 10 ==> (spec_intention_for(choice) matches Intention::Combine(Some(r)) && spec_resource_index(
            ResourceType::Complex(r),
        ) == choice),
        choice >= 10 ==> spec_intention_for(choice) == Intention::Generate(None),
{
    if choice < 10 {
        lemma_resource_table_bijection(ResourceType::Complex(ComplexResourceType::Diamond), choice);
    }
}

/// A neighbor's score weighs every one of its ten capabilities against the
/// needs: each resource it makes adds at least that resource's need, and it
/// scores zero exactly when it makes nothing the explorer needs.
pub proof fn law_scores_weigh_every_capability(g: GalaxyMap, needs: Seq<u64>, ns: Seq<u32>, k: int, i: int)
    requires
        g.wf(),
        needs.len() == 10,
        0 <= k < ns.len(),
        0 <= i < 10,
        spec_dot(g.caps_of(ns[k]), needs, 10) <= u64::MAX,
    ensures
        neighbor_scores(g, needs, ns).len() == ns.len(),
        neighbor_scores(g, needs, ns)[k].0 == ns[k],
        g.caps_of(ns[k])[i] == 1 ==> neighbor_scores(g, needs, ns)[k].1 >= needs[i],
        (neighbor_scores(g, needs, ns)[k].1 == 0) <==> (forall|j: int|
            0 <= j < 10 ==> g.caps_of(ns[k])[j] == 0 || #[trigger] needs[j] == 0),
{
    let caps = g.caps_of(ns[k]);
    assert(caps.len() == 10 && is_flags(caps));
    lemma_dot_terms(caps, needs, 10);
    assert forall|j: int| 0 <= j < 10 implies (#[trigger] (caps[j] * needs[j]) == 0) == (caps[j] == 0
        || needs[j] == 0) by {
        assert(caps[j] <= 1);
        assert(caps[j] == 0 ==> caps[j] * needs[j] == 0) by (nonlinear_arith);
        assert(caps[j] == 1 ==> caps[j] * needs[j] == needs[j]) by (nonlinear_arith);
    }
    if caps[i] == 1 {
        assert(caps[i] * needs[i] == needs[i]) by (nonlinear_arith)
            requires
                caps[i] == 1,
        ;
    }
    if neighbor_scores(g, needs, ns)[k].1 == 0 {
        assert forall|j: int| 0 <= j < 10 implies caps[j] == 0 || #[trigger] needs[j] == 0 by {
            assert(caps[j] * needs[j] == 0);
        }
    }
    if forall|j: int| 0 <= j < 10 ==> caps[j] == 0 || #[trigger] needs[j] == 0 {
        assert forall|j: int| 0 <= j < 10 implies #[trigger] (caps[j] * needs[j]) == 0 by {
            assert(caps[j] == 0 || needs[j] == 0);
        }
    }
}

/// A combination the bag can make raises the gene-driven brain's action
/// number by six over the gene's own, so that from a base of five on the
/// brain combines; without a match the action stays in the gene's range.
pub proof fn law_matches_favour_combining(b: GeneticBrain)
    requires
        b.wf(),
    ensures
        ({
            let gene = b.spec_current_gene() as int;
            let blk: int = if b.spec_blocked() { 1 } else { 0 };
            let base = gene % (10 + b.spec_resources_amount() as int) + blk;
            &&& b.spec_action(true) == base + 6
            &&& (b.spec_action(true) >= 11 <==> base >= 5)
            &&& base <= 10 ==> b.spec_action(false) == base
            &&& base > 10 ==> b.spec_action(false) == gene % 10 + blk
        }),
{
}

/// Working towards a basic resource needs that resource only, at the top
/// need; a resource the planet makes and the bag allows is weighed by its
/// full need, one it does not by nothing.
pub proof fn law_weights_follow_needs(b: BasicResourceType, needs: Seq<u64>, caps: Seq<u64>, bag: Seq<u64>, i: int)
    requires
        needs.len() == 10,
        caps.len() == 10,
        bag.len() == 10,
        is_flags(caps),
        0 <= i < 10,
    ensures
        spec_resource_needs(ResourceType::Basic(b))[i] == if i == spec_resource_index(ResourceType::Basic(b)) {
            NEEDS_MAGIC_NUMBER as int
        } else {
            0
        },
        caps[i] == 1 && crafting_flag(bag, i) == 1 ==> spec_possibilities(needs, caps, bag)[i] == needs[i],
        caps[i] == 0 || crafting_flag(bag, i) == 0 ==> spec_possibilities(needs, caps, bag)[i] == 0,
{
    let n = needs[i];
    let f = caps[i];
    let g = crafting_flag(bag, i);
    assert(f == 1 && g == 1 ==> n * f * g == n) by (nonlinear_arith);
    assert(f == 0 || g == 0 ==> n * f * g == 0) by (nonlinear_arith);
}

} // verus!
