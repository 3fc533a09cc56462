//! What holds of every command line.
//!
//! The parser's contract says what a command line asks for by folding its
//! tokens. The lemmas here read that fold back in the terms a user of the
//! command line thinks in: the last setting of an option wins, the first
//! positional argument that denotes a target is the launch target, one
//! printout anywhere asks for the exit, and the filesystem decides nothing
//! but the target.

use crate::args::{
    lookahead_at, next_to_probe, option_reading, parsed_args, parsed_from, positional_indices,
    probe_at, reading_at, target_among, tokens, tokens_from, ArgMeaningView, Token,
};
use crate::options::{dark_theme, lemma_values_are_no_flags, light_theme};
use crate::target::{classified, ResolvedPathView};
use crate::text::looks_like_flag;
use vstd::prelude::*;

verus! {

/// The theme that a meaning sets, if it sets one.
pub open spec fn theme_set_by(meaning: ArgMeaningView) -> Option<Seq<char>> {
    match meaning {
        ArgMeaningView::Theme(name) => Some(name),
        _ => None,
    }
}

/// Whether the table of contents starts open, if the meaning says.
pub open spec fn toc_set_by(meaning: ArgMeaningView) -> Option<bool> {
    match meaning {
        ArgMeaningView::Toc(open) => Some(open),
        _ => None,
    }
}

/// Whether auto-refresh starts switched on, if the meaning says.
pub open spec fn watch_set_by(meaning: ArgMeaningView) -> Option<bool> {
    match meaning {
        ArgMeaningView::Watch(on) => Some(on),
        _ => None,
    }
}

/// A meaning that sets a theme sets one of the two known themes.
pub open spec fn sets_known_theme(meaning: ArgMeaningView) -> bool {
    meaning matches ArgMeaningView::Theme(name) ==> name == dark_theme() || name == light_theme()
}

/// The value that the last token with a value gives, going by `pick`.
pub open spec fn last_setting<T>(
    tokens: Seq<Token>,
    pick: spec_fn(ArgMeaningView) -> Option<T>,
) -> Option<T>
    decreases tokens.len(),
{
    if tokens.len() == 0 {
        None
    } else {
        match pick(tokens.last().meaning) {
            Some(value) => Some(value),
            None => last_setting(tokens.drop_last(), pick),
        }
    }
}

/// Whether the token at `position` asks for a printout.
pub open spec fn is_printout_at(tokens: Seq<Token>, position: int) -> bool {
    &&& 0 <= position < tokens.len()
    &&& tokens[position].meaning matches ArgMeaningView::Notice(notice)
    &&& notice.is_printout()
}

/// Whether the token at `position` is a positional argument whose probe
/// denotes a target.
pub open spec fn is_candidate(
    tokens: Seq<Token>,
    probes: Seq<Option<ResolvedPathView>>,
    position: int,
) -> bool {
    &&& 0 <= position < tokens.len()
    &&& tokens[position].meaning is Positional
    &&& classified(probe_at(probes, tokens[position].index)) is Some
}

/// Whether the token at `position` is the first positional argument whose
/// probe denotes a target.
pub open spec fn is_first_candidate(
    tokens: Seq<Token>,
    probes: Seq<Option<ResolvedPathView>>,
    position: int,
) -> bool {
    &&& is_candidate(tokens, probes, position)
    &&& forall|earlier: int| 0 <= earlier < position ==> !is_candidate(tokens, probes, earlier)
}

/// No reading uses up a following argument that looks like a flag: where
/// the next argument starts with a dash, it is read on its own.
pub proof fn lemma_flag_is_never_a_value(arg: Seq<char>, lookahead: Option<Seq<char>>)
    ensures
        option_reading(arg, lookahead).takes_lookahead ==> (lookahead matches Some(value)
            && !looks_like_flag(value)),
{
    match lookahead {
        Some(value) => lemma_values_are_no_flags(value),
        None => {},
    }
}

/// Each token stands at a position of the command line, no position is read
/// twice, and the tokens come in the order of their positions.
pub proof fn lemma_tokens_in_order(args: Seq<Seq<char>>, start: int, positional_only: bool)
    requires
        0 <= start,
    ensures
        forall|i: int|
            0 <= i < tokens_from(args, start, positional_only).len() ==> start <= (
            #[trigger] tokens_from(args, start, positional_only)[i]).index < args.len(),
        forall|i: int, j: int|
            0 <= i < j < tokens_from(args, start, positional_only).len() ==> (#[trigger] tokens_from(
                args,
                start,
                positional_only,
            )[i]).index < (#[trigger] tokens_from(args, start, positional_only)[j]).index,
    decreases args.len() - start,
{
    if start < args.len() {
        let reading = reading_at(args, start, positional_only);
        let later = positional_only || reading.meaning is EndOfOptions;
        lemma_tokens_in_order(args, start + reading.width(), later);
        let rest = tokens_from(args, start + reading.width(), later);
        let all = tokens_from(args, start, positional_only);
        assert forall|i: int| 0 <= i < all.len() implies start <= (#[trigger] all[i]).index
            < args.len() by {
            if i > 0 {
                assert(all[i] == rest[i - 1]);
            }
        }
        assert forall|i: int, j: int| 0 <= i < j < all.len() implies (#[trigger] all[i]).index < (
        #[trigger] all[j]).index by {
            assert(all[j] == rest[j - 1]);
            if i > 0 {
                assert(all[i] == rest[i - 1]);
            }
        }
    }
}

/// Every theme that a reading sets is one of the two known themes.
pub proof fn lemma_reading_sets_known_theme(arg: Seq<char>, lookahead: Option<Seq<char>>)
    ensures
        sets_known_theme(option_reading(arg, lookahead).meaning),
{
}

/// Every theme that a token of a command line sets is one of the two known
/// themes.
pub proof fn lemma_tokens_set_known_themes(args: Seq<Seq<char>>, start: int, positional_only: bool)
    requires
        0 <= start,
    ensures
        forall|i: int|
            0 <= i < tokens_from(args, start, positional_only).len() ==> sets_known_theme(
                (#[trigger] tokens_from(args, start, positional_only)[i]).meaning,
            ),
    decreases args.len() - start,
{
    if start < args.len() {
        let reading = reading_at(args, start, positional_only);
        let later = positional_only || reading.meaning is EndOfOptions;
        lemma_tokens_set_known_themes(args, start + reading.width(), later);
        let rest = tokens_from(args, start + reading.width(), later);
        let all = tokens_from(args, start, positional_only);
        if !positional_only {
            lemma_reading_sets_known_theme(args[start], lookahead_at(args, start));
        }
        assert forall|i: int| 0 <= i < all.len() implies sets_known_theme(
            (#[trigger] all[i]).meaning,
        ) by {
            if i > 0 {
                assert(all[i] == rest[i - 1]);
            }
        }
    }
}

/// The last setting of each option wins, and an option that no token sets
/// stays absent.
pub proof fn lemma_last_setting_wins(tokens: Seq<Token>, probes: Seq<Option<ResolvedPathView>>)
    ensures
        parsed_from(tokens, probes).startup_options.theme == last_setting(
            tokens,
            |meaning: ArgMeaningView| theme_set_by(meaning),
        ),
        parsed_from(tokens, probes).startup_options.toc_open == last_setting(
            tokens,
            |meaning: ArgMeaningView| toc_set_by(meaning),
        ),
        parsed_from(tokens, probes).startup_options.auto_refresh == last_setting(
            tokens,
            |meaning: ArgMeaningView| watch_set_by(meaning),
        ),
    decreases tokens.len(),
{
    if tokens.len() > 0 {
        lemma_last_setting_wins(tokens.drop_last(), probes);
    }
}

/// The request asks for the exit exactly when one of its tokens asks for a
/// printout.
pub proof fn lemma_exit_follows_printout(tokens: Seq<Token>, probes: Seq<Option<ResolvedPathView>>)
    ensures
        parsed_from(tokens, probes).exit_after_print <==> exists|position: int|
            is_printout_at(tokens, position),
    decreases tokens.len(),
{
    if tokens.len() > 0 {
        let head = tokens.drop_last();
        lemma_exit_follows_printout(head, probes);
        if parsed_from(tokens, probes).exit_after_print {
            if parsed_from(head, probes).exit_after_print {
                let position = choose|position: int| is_printout_at(head, position);
                assert(is_printout_at(tokens, position));
            } else {
                assert(is_printout_at(tokens, tokens.len() - 1));
            }
        }
        if exists|position: int| is_printout_at(tokens, position) {
            let position = choose|position: int| is_printout_at(tokens, position);
            if position < tokens.len() - 1 {
                assert(is_printout_at(head, position));
            }
        }
    }
}

/// The launch target is what the first positional argument whose probe
/// denotes a target denotes; there is none exactly when no positional
/// argument denotes one.
pub proof fn lemma_first_candidate_is_target(
    tokens: Seq<Token>,
    probes: Seq<Option<ResolvedPathView>>,
)
    ensures
        match parsed_from(tokens, probes).launch_target {
            Some(target) => exists|position: int|
                is_first_candidate(tokens, probes, position) && classified(
                    probe_at(probes, tokens[position].index),
                ) == Some(target),
            None => forall|position: int| !is_candidate(tokens, probes, position),
        },
    decreases tokens.len(),
{
    if tokens.len() > 0 {
        let head = tokens.drop_last();
        let last = tokens.len() - 1;
        lemma_first_candidate_is_target(head, probes);
        assert forall|position: int| 0 <= position < last implies is_candidate(
            head,
            probes,
            position,
        ) == is_candidate(tokens, probes, position) by {
            assert(head[position] == tokens[position]);
        }
        match parsed_from(head, probes).launch_target {
            Some(target) => {
                let position = choose|position: int|
                    is_first_candidate(head, probes, position) && classified(
                        probe_at(probes, head[position].index),
                    ) == Some(target);
                assert(head[position] == tokens[position]);
                assert(is_first_candidate(tokens, probes, position));
            },
            None => {
                assert forall|position: int| 0 <= position < last implies !is_candidate(
                    tokens,
                    probes,
                    position,
                ) by {
                    assert(!is_candidate(head, probes, position));
                }
                if is_candidate(tokens, probes, last) {
                    assert(is_first_candidate(tokens, probes, last));
                }
            },
        }
    }
}

/// What the filesystem holds decides the launch target and nothing else:
/// options, exit and notices are the same whatever the probes found.
pub proof fn lemma_probes_decide_only_the_target(
    tokens: Seq<Token>,
    probes: Seq<Option<ResolvedPathView>>,
    other_probes: Seq<Option<ResolvedPathView>>,
)
    ensures
        parsed_from(tokens, probes).startup_options == parsed_from(
            tokens,
            other_probes,
        ).startup_options,
        parsed_from(tokens, probes).exit_after_print == parsed_from(
            tokens,
            other_probes,
        ).exit_after_print,
        parsed_from(tokens, probes).notices == parsed_from(tokens, other_probes).notices,
    decreases tokens.len(),
{
    if tokens.len() > 0 {
        lemma_probes_decide_only_the_target(tokens.drop_last(), probes, other_probes);
    }
}

/// Whether two runs of probes say the same of the argument at `index`.
pub open spec fn same_probe(
    probes: Seq<Option<ResolvedPathView>>,
    others: Seq<Option<ResolvedPathView>>,
    index: int,
) -> bool {
    probe_at(probes, index) == probe_at(others, index)
}

/// Only the probes of positional arguments matter: two runs of probes that
/// say the same of every positional argument give the same request.
pub proof fn lemma_only_positional_probes_matter(
    tokens: Seq<Token>,
    probes: Seq<Option<ResolvedPathView>>,
    others: Seq<Option<ResolvedPathView>>,
)
    requires
        forall|q: int|
            0 <= q < tokens.len() && (#[trigger] tokens[q]).meaning is Positional ==> same_probe(
                probes,
                others,
                tokens[q].index,
            ),
    ensures
        parsed_from(tokens, probes) == parsed_from(tokens, others),
    decreases tokens.len(),
{
    if tokens.len() > 0 {
        let head = tokens.drop_last();
        assert forall|q: int|
            0 <= q < head.len() && (#[trigger] head[q]).meaning is Positional implies same_probe(
            probes,
            others,
            head[q].index,
        ) by {
            assert(head[q] == tokens[q]);
        }
        lemma_only_positional_probes_matter(head, probes, others);
        assert(tokens.last() == tokens[tokens.len() - 1]);
    }
}

/// Whether a positional token stands at the position `index` of the command
/// line.
pub open spec fn is_positional_at(tokens: Seq<Token>, index: int) -> bool {
    exists|q: int|
        0 <= q < tokens.len() && (#[trigger] tokens[q]).meaning is Positional && tokens[q].index
            == index
}

/// The positional indices of a command line are the positions of its
/// positional tokens, all of them and nothing else.
pub proof fn lemma_positional_indices_are_the_positionals(tokens: Seq<Token>)
    ensures
        forall|q: int|
            0 <= q < tokens.len() && (#[trigger] tokens[q]).meaning is Positional
                ==> positional_indices(tokens).contains(tokens[q].index),
        forall|i: int|
            0 <= i < positional_indices(tokens).len() ==> is_positional_at(
                tokens,
                #[trigger] positional_indices(tokens)[i],
            ),
    decreases tokens.len(),
{
    if tokens.len() > 0 {
        let head = tokens.drop_last();
        let last = tokens.len() - 1;
        let all = positional_indices(tokens);
        let earlier = positional_indices(head);
        lemma_positional_indices_are_the_positionals(head);
        assert forall|q: int|
            0 <= q < tokens.len() && (#[trigger] tokens[q]).meaning is Positional implies all.contains(
            tokens[q].index,
        ) by {
            if q < last {
                assert(head[q] == tokens[q]);
                let at = choose|at: int| 0 <= at < earlier.len() && earlier[at] == head[q].index;
                assert(all[at] == tokens[q].index);
            } else {
                assert(all[all.len() - 1] == tokens[q].index);
            }
        }
        assert forall|i: int| 0 <= i < all.len() implies is_positional_at(
            tokens,
            #[trigger] all[i],
        ) by {
            if i < earlier.len() {
                assert(all[i] == earlier[i]);
                assert(is_positional_at(head, earlier[i]));
                let q = choose|q: int|
                    0 <= q < head.len() && (#[trigger] head[q]).meaning is Positional
                        && head[q].index == earlier[i];
                assert(head[q] == tokens[q]);
            } else {
                assert(tokens[last].meaning is Positional && tokens[last].index == all[i]);
            }
        }
    }
}

/// Once a positional argument denotes a target, nothing that comes after it
/// is looked at: the probes of the later arguments change nothing.
pub proof fn lemma_probes_after_the_target_do_not_matter(
    tokens: Seq<Token>,
    probes: Seq<Option<ResolvedPathView>>,
    others: Seq<Option<ResolvedPathView>>,
    position: int,
)
    requires
        is_first_candidate(tokens, probes, position),
        forall|q: int| 0 <= q <= position ==> same_probe(probes, others, (#[trigger] tokens[q]).index),
    ensures
        parsed_from(tokens, probes) == parsed_from(tokens, others),
    decreases tokens.len(),
{
    let head = tokens.drop_last();
    let last = tokens.len() - 1;
    assert(tokens.last() == tokens[last]);
    if position < last {
        assert forall|q: int| 0 <= q < head.len() implies head[q] == tokens[q] by {}
        assert(is_candidate(head, probes, position));
        assert forall|earlier: int| 0 <= earlier < position implies !is_candidate(
            head,
            probes,
            earlier,
        ) by {
            assert(!is_candidate(tokens, probes, earlier));
        }
        assert forall|q: int| 0 <= q <= position implies same_probe(
            probes,
            others,
            (#[trigger] head[q]).index,
        ) by {
            assert(head[q] == tokens[q]);
        }
        lemma_probes_after_the_target_do_not_matter(head, probes, others, position);
        lemma_first_candidate_is_target(head, probes);
    } else {
        assert forall|q: int|
            0 <= q < head.len() && (#[trigger] head[q]).meaning is Positional implies same_probe(
            probes,
            others,
            head[q].index,
        ) by {
            assert(head[q] == tokens[q]);
        }
        lemma_only_positional_probes_matter(head, probes, others);
    }
}

/// The launch target is what the positional arguments give, taken in their
/// order.
pub proof fn lemma_target_is_first_among_positionals(
    tokens: Seq<Token>,
    probes: Seq<Option<ResolvedPathView>>,
)
    ensures
        parsed_from(tokens, probes).launch_target == target_among(
            positional_indices(tokens),
            probes,
        ),
    decreases tokens.len(),
{
    if tokens.len() > 0 {
        let head = tokens.drop_last();
        lemma_target_is_first_among_positionals(head, probes);
        if tokens.last().meaning is Positional {
            let positions = positional_indices(tokens);
            assert(positions.drop_last() =~= positional_indices(head));
        }
    }
}

/// A target that the first `count` positions give is the target that all of
/// them give: what comes after it changes nothing.
pub proof fn lemma_target_stays(
    positions: Seq<int>,
    probes: Seq<Option<ResolvedPathView>>,
    count: int,
)
    requires
        0 <= count <= positions.len(),
        target_among(positions.take(count), probes) is Some,
    ensures
        target_among(positions, probes) == target_among(positions.take(count), probes),
    decreases positions.len(),
{
    if count == positions.len() {
        assert(positions.take(count) =~= positions);
    } else {
        assert(positions.drop_last().take(count) =~= positions.take(count));
        lemma_target_stays(positions.drop_last(), probes, count);
    }
}

/// Two runs of probes that say the same of every position give the same
/// target.
pub proof fn lemma_target_goes_by_its_probes(
    positions: Seq<int>,
    probes: Seq<Option<ResolvedPathView>>,
    others: Seq<Option<ResolvedPathView>>,
)
    requires
        forall|i: int| 0 <= i < positions.len() ==> same_probe(probes, others, #[trigger] positions[i]),
    ensures
        target_among(positions, probes) == target_among(positions, others),
    decreases positions.len(),
{
    if positions.len() > 0 {
        let head = positions.drop_last();
        assert forall|i: int| 0 <= i < head.len() implies same_probe(
            probes,
            others,
            #[trigger] head[i],
        ) by {
            assert(head[i] == positions[i]);
        }
        lemma_target_goes_by_its_probes(head, probes, others);
        assert(same_probe(probes, others, positions[positions.len() - 1]));
    }
}

/// Probing in turn is enough. Once there is nothing left to probe, the
/// request is the one that probing every argument would have given:
/// whatever the arguments that were not probed would have resolved to, it
/// changes nothing.
pub proof fn lemma_probing_in_turn_is_enough(
    args: Seq<Seq<char>>,
    probes: Seq<Option<ResolvedPathView>>,
    others: Seq<Option<ResolvedPathView>>,
    probed: int,
)
    requires
        0 <= probed <= positional_indices(tokens(args)).len(),
        next_to_probe(positional_indices(tokens(args)), probes, probed) is None,
        forall|i: int|
            0 <= i < probed ==> same_probe(
                probes,
                others,
                #[trigger] positional_indices(tokens(args))[i],
            ),
    ensures
        parsed_args(args, probes) == parsed_args(args, others),
{
    let all = tokens(args);
    let positions = positional_indices(all);
    let seen = positions.take(probed);
    assert forall|i: int| 0 <= i < seen.len() implies same_probe(
        probes,
        others,
        #[trigger] seen[i],
    ) by {
        assert(seen[i] == positions[i]);
    }
    lemma_target_goes_by_its_probes(seen, probes, others);
    if probed == positions.len() {
        assert(seen =~= positions);
    } else {
        lemma_target_stays(positions, probes, probed);
        lemma_target_stays(positions, others, probed);
    }
    lemma_target_is_first_among_positionals(all, probes);
    lemma_target_is_first_among_positionals(all, others);
    lemma_probes_decide_only_the_target(all, probes, others);
}

/// A theme in a request is one of the two known themes, and a file target
/// carries an extension of the allow-list.
pub proof fn lemma_request_is_well_formed(
    args: Seq<Seq<char>>,
    probes: Seq<Option<ResolvedPathView>>,
)
    ensures
        parsed_args(args, probes).startup_options.well_formed(),
        parsed_args(args, probes).launch_target matches Some(target) ==> target.well_formed(),
{
    let all = tokens(args);
    lemma_tokens_set_known_themes(args, 0, false);
    lemma_themes_stay_known(all, probes);
    lemma_first_candidate_is_target(all, probes);
}

/// Where every token sets a known theme, the request holds a known theme.
proof fn lemma_themes_stay_known(tokens: Seq<Token>, probes: Seq<Option<ResolvedPathView>>)
    requires
        forall|i: int| 0 <= i < tokens.len() ==> sets_known_theme((#[trigger] tokens[i]).meaning),
    ensures
        parsed_from(tokens, probes).startup_options.well_formed(),
    decreases tokens.len(),
{
    if tokens.len() > 0 {
        let head = tokens.drop_last();
        assert forall|i: int| 0 <= i < head.len() implies sets_known_theme(
            (#[trigger] head[i]).meaning,
        ) by {
            assert(head[i] == tokens[i]);
        }
        lemma_themes_stay_known(head, probes);
        assert(tokens.last() == tokens[tokens.len() - 1]);
    }
}

/// A command line that opens with a request for the usage text or the
/// version asks for the exit, whatever follows.
pub proof fn lemma_leading_printout_asks_exit(
    args: Seq<Seq<char>>,
    probes: Seq<Option<ResolvedPathView>>,
)
    requires
        args.len() > 0,
        args[0] == "-h"@ || args[0] == "--help"@ || args[0] == "-V"@ || args[0] == "--version"@,
    ensures
        parsed_args(args, probes).exit_after_print,
{
    reveal_strlit("--");
    reveal_strlit("-h");
    reveal_strlit("--help");
    reveal_strlit("-V");
    reveal_strlit("--version");
    let all = tokens(args);
    assert(args[0] != "--"@) by {
        assert(args[0][1] != "--"@[1] || args[0].len() != 2);
    }
    assert(is_printout_at(all, 0));
    lemma_exit_follows_printout(all, probes);
}

} // verus!
