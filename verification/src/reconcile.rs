//! The variant reconciler: what one variant's next text is, given its previous
//! text, the new source and the stable index.
//!
//! The stable index is the position in the source below which a variant's
//! text is taken over as it is. A variant that exists and faces no new content
//! is cut to the length of the new source. Otherwise what the service makes of
//! the new part of the source is put behind what the variant keeps: its
//! previous text where the stable index is past the start, and nothing where
//! the index is 0, for then the source was changed and not added to, and the
//! variant is made anew from all of it. A variant that does not exist yet has
//! nothing to keep either: all of the new source is new to it, whatever the
//! stable index says.

use vstd::prelude::*;
use vstd::string::StringExecFns;

use crate::diary::{Diary, DiaryContent};
use crate::error::DomainError;
use crate::locate::stable_index;
use crate::text::{chars_after, first_chars, is_blank, str_is_blank};
use crate::transform::{settle_reply, settled_text, Style, TransformReply, TRANSPORT_SENTINEL};

verus! {

/// The text of a diary that may be absent.
pub open spec fn text_of(previous: Option<&Diary>) -> Option<Seq<char>> {
    match previous {
        Some(d) => Some(d@.content),
        None => None,
    }
}

/// Whether the variant keeps (a cut of) its previous text and nothing else:
/// it has a previous text, and the new source holds nothing past the stable
/// index.
pub open spec fn keeps_previous(previous: Option<Seq<char>>, new_source: Seq<char>, k: nat) -> bool {
    previous is Some && k >= new_source.len()
}

/// What the variant keeps in front of the new part: its previous text, all of
/// it, where the stable index `k` is past the start; nothing where `k` is 0,
/// for then nothing of the source is stable, and nothing where the variant
/// has no previous text.
pub open spec fn preserved_prefix(previous: Option<Seq<char>>, k: nat) -> Seq<char> {
    match previous {
        Some(p) => if k > 0 {
            p
        } else {
            Seq::empty()
        },
        None => Seq::empty(),
    }
}

/// The part of the new source that is new to the variant: what follows the
/// stable index; all of it where the variant has no previous text.
pub open spec fn new_suffix(previous: Option<Seq<char>>, new_source: Seq<char>, k: nat) -> Seq<
    char,
> {
    match previous {
        Some(_) => chars_after(new_source, k),
        None => new_source,
    }
}

/// Whether the service is called for the variant: there is new content, and
/// it is more than white space.
pub open spec fn needs_transform(previous: Option<Seq<char>>, new_source: Seq<char>, k: nat) -> bool {
    !keeps_previous(previous, new_source, k) && !is_blank(new_suffix(previous, new_source, k))
}

/// The variant's next text where the service is not called: the previous text
/// cut to the length of the new source, or what the variant keeps with the
/// blank new part behind it.
pub open spec fn text_without_worker(
    previous: Option<Seq<char>>,
    new_source: Seq<char>,
    k: nat,
) -> Seq<char> {
    if keeps_previous(previous, new_source, k) {
        first_chars(previous->0, new_source.len())
    } else {
        preserved_prefix(previous, k) + new_suffix(previous, new_source, k)
    }
}

/// The variant's next text, where `tail` is the text that the reply of the
/// service stands for, if the service is called.
pub open spec fn reconciled(
    previous: Option<Seq<char>>,
    new_source: Seq<char>,
    k: nat,
    tail: Seq<char>,
) -> Seq<char> {
    if needs_transform(previous, new_source, k) {
        preserved_prefix(previous, k) + tail
    } else {
        text_without_worker(previous, new_source, k)
    }
}

/// What is decided for one variant before any call of the service.
#[derive(Debug, PartialEq, Eq)]
pub enum VariantPlan {
    /// The next text is known; the service is not called.
    Settled(DiaryContent),
    /// The service is to rewrite `suffix` in `style`; what it makes of it goes
    /// behind `prefix`.
    Pending { style: Style, prefix: String, suffix: String },
}

impl VariantPlan {
    /// Whether this is the plan for the variant of `style` whose stored text is
    /// `previous`, facing `new_source` with the stable index `k`.
    pub open spec fn is_plan_for(
        self,
        style: Style,
        previous: Option<Seq<char>>,
        new_source: Seq<char>,
        k: nat,
    ) -> bool {
        match self {
            VariantPlan::Settled(c) => {
                &&& !needs_transform(previous, new_source, k)
                &&& c@ == text_without_worker(previous, new_source, k)
            },
            VariantPlan::Pending { style: s, prefix, suffix } => {
                &&& needs_transform(previous, new_source, k)
                &&& s == style
                &&& prefix@ == preserved_prefix(previous, k)
                &&& suffix@ == new_suffix(previous, new_source, k)
            },
        }
    }
}

/// Decides what becomes of the variant of `style`: `previous` is its stored
/// diary, `new_content` the new source, `target_index` the stable index.
pub fn plan_variant(
    style: Style,
    previous: Option<&Diary>,
    new_content: &DiaryContent,
    target_index: usize,
) -> (plan: VariantPlan)
    ensures
        plan.is_plan_for(style, text_of(previous), new_content@, target_index as nat),
{
    let length = new_content.to_length();
    match previous {
        Some(diary) => {
            let kept = diary.content();
            let kept_text = kept.to_value();
            if target_index >= length {
                let text = kept.get_to(length);
                VariantPlan::Settled(DiaryContent::of_text(text))
            } else {
                let suffix = new_content.get_from(target_index);
                let prefix = if target_index > 0 {
                    kept_text.clone()
                } else {
                    String::new()
                };
                if str_is_blank(suffix.as_str()) {
                    let mut text = prefix;
                    text.append(suffix.as_str());
                    VariantPlan::Settled(DiaryContent::of_text(text))
                } else {
                    VariantPlan::Pending { style, prefix, suffix }
                }
            }
        },
        None => {
            if str_is_blank(new_content.to_str()) {
                assert(Seq::<char>::empty() + new_content@ =~= new_content@);
                VariantPlan::Settled(new_content.clone())
            } else {
                VariantPlan::Pending {
                    style,
                    prefix: String::new(),
                    suffix: new_content.to_value().clone(),
                }
            }
        },
    }
}

/// Puts the reply of the service behind the prefix that the plan kept. The
/// result is a diary text unless it is empty, which no diary text may be.
pub fn finish_variant(prefix: String, reply: TransformReply) -> (r: Result<
    DiaryContent,
    DomainError,
>)
    ensures
        match r {
            Ok(c) => c@ == prefix@ + settled_text(reply) && c@.len() > 0,
            Err(e) => (prefix@ + settled_text(reply)).len() == 0 && e.is_validation(
                "diary content must not be empty"@,
            ),
        },
{
    let mut text = prefix;
    let tail = settle_reply(reply);
    text.append(tail.as_str());
    DiaryContent::new(text)
}

/// A source that comes again unchanged is stable over its whole length: a
/// variant that exists is settled without the service, as its stored text cut
/// to the length of the source. So a variant no longer than the source keeps
/// its text, character for character.
pub proof fn lemma_repeat_is_idempotent(source: Seq<char>, variant: Seq<char>, tail: Seq<char>)
    ensures
        stable_index(source, Some(source)) == source.len(),
        !needs_transform(Some(variant), source, stable_index(source, Some(source))),
        reconciled(Some(variant), source, stable_index(source, Some(source)), tail) == first_chars(
            variant,
            source.len(),
        ),
        variant.len() <= source.len() ==> reconciled(
            Some(variant),
            source,
            stable_index(source, Some(source)),
            tail,
        ) == variant,
{
    assert(source =~= source.subrange(0, source.len() as int));
    if variant.len() <= source.len() {
        assert(first_chars(variant, source.len()) =~= variant);
    }
}

/// Where the stable index leaves nothing new of the source, a variant that
/// exists is cut to the length of the source without a call of the service:
/// its next text is as long as the shorter of the two, so as long as the new
/// source where the variant was at least that long.
pub proof fn lemma_length_align(variant: Seq<char>, new_source: Seq<char>, k: nat, tail: Seq<char>)
    requires
        k >= new_source.len(),
    ensures
        !needs_transform(Some(variant), new_source, k),
        reconciled(Some(variant), new_source, k, tail) == first_chars(variant, new_source.len()),
        reconciled(Some(variant), new_source, k, tail).len() == if variant.len()
            <= new_source.len() {
            variant.len()
        } else {
            new_source.len()
        },
        variant.len() >= new_source.len() ==> reconciled(Some(variant), new_source, k, tail).len()
            == new_source.len(),
{
}

/// Where the new source is the previous one with `added` behind it, only
/// `added` is new to a variant that exists: where `added` is more than white
/// space the service is asked for exactly `added`, and what it makes of it
/// goes behind the variant's stored text; a blank `added` goes behind it as
/// it is.
pub proof fn lemma_append_sends_tail(
    old_source: Seq<char>,
    added: Seq<char>,
    variant: Seq<char>,
    tail: Seq<char>,
)
    requires
        old_source.len() > 0,
        added.len() > 0,
    ensures
        stable_index(old_source + added, Some(old_source)) == old_source.len(),
        preserved_prefix(Some(variant), old_source.len()) == variant,
        new_suffix(Some(variant), old_source + added, old_source.len()) == added,
        needs_transform(Some(variant), old_source + added, old_source.len()) == !is_blank(added),
        reconciled(Some(variant), old_source + added, old_source.len(), tail) == if is_blank(
            added,
        ) {
            variant + added
        } else {
            variant + tail
        },
{
    let new_source = old_source + added;
    assert(old_source =~= new_source.subrange(0, old_source.len() as int));
    assert(new_source.skip(old_source.len() as int) =~= added);
}

/// A source that was changed, not added to, is mutated anew in full: its
/// stable index is 0, so a variant keeps nothing of its stored text, whether
/// it has one or not. Where the source is more than white space the service
/// is asked for all of it, and what it makes of it is the variant's next
/// text; a blank source becomes the variant's next text as it is.
pub proof fn lemma_edit_is_mutated_anew(
    old_source: Seq<char>,
    new_source: Seq<char>,
    previous: Option<Seq<char>>,
    tail: Seq<char>,
)
    requires
        new_source.len() > 0,
        !old_source.is_prefix_of(new_source),
    ensures
        stable_index(new_source, Some(old_source)) == 0,
        preserved_prefix(previous, 0) == Seq::<char>::empty(),
        new_suffix(previous, new_source, 0) == new_source,
        needs_transform(previous, new_source, 0) == !is_blank(new_source),
        reconciled(previous, new_source, 0, tail) == if is_blank(new_source) {
            new_source
        } else {
            tail
        },
{
    assert(new_source.skip(0) =~= new_source);
    assert(Seq::<char>::empty() + new_source =~= new_source);
    assert(Seq::<char>::empty() + tail =~= tail);
}

/// A source shorter than the stored one was changed, not added to: the
/// stored source is no prefix of it, and its stable index is 0.
pub proof fn lemma_shorter_source_is_an_edit(old_source: Seq<char>, new_source: Seq<char>)
    requires
        new_source.len() < old_source.len(),
    ensures
        !old_source.is_prefix_of(new_source),
        stable_index(new_source, Some(old_source)) == 0,
{
}

/// A variant that does not exist yet has nothing to keep: whatever the stable
/// index, all of the new source is new to it, and its first text is what the
/// service makes of the source, or the source itself where that is blank.
pub proof fn lemma_first_text(new_source: Seq<char>, k: nat, tail: Seq<char>)
    ensures
        preserved_prefix(None, k) == Seq::<char>::empty(),
        new_suffix(None, new_source, k) == new_source,
        needs_transform(None, new_source, k) == !is_blank(new_source),
        reconciled(None, new_source, k, tail) == if is_blank(new_source) {
            new_source
        } else {
            tail
        },
{
    assert(Seq::<char>::empty() + new_source =~= new_source);
    assert(Seq::<char>::empty() + tail =~= tail);
}

/// A call of the service that fails does not fail the variant: the sentence
/// that reports the failure takes the place of the reply, behind the text
/// that the variant keeps, and the text so made is a diary text.
pub proof fn lemma_failure_is_shown(previous: Option<Seq<char>>, new_source: Seq<char>, k: nat)
    requires
        needs_transform(previous, new_source, k),
    ensures
        settled_text(TransformReply::Failed) == TRANSPORT_SENTINEL@,
        reconciled(previous, new_source, k, settled_text(TransformReply::Failed))
            == preserved_prefix(previous, k) + TRANSPORT_SENTINEL@,
        reconciled(previous, new_source, k, settled_text(TransformReply::Failed)).len() > 0,
{
    reveal_strlit("Error communicating with API.");
}

/// Wherever the service is not called, the variant's next text is a diary
/// text: it is not empty, given that the stored text and the new source are
/// none.
pub proof fn lemma_settled_is_not_empty(previous: Option<Seq<char>>, new_source: Seq<char>, k: nat)
    requires
        new_source.len() > 0,
        previous matches Some(p) ==> p.len() > 0,
        !needs_transform(previous, new_source, k),
    ensures
        text_without_worker(previous, new_source, k).len() > 0,
{
}

} // verus!
