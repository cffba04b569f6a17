use crate::card::entity::Card;
use crate::project::entity::{Project, ProjectData, SectionWithCards};
use crate::section::entity::Section;
use crate::shared::id::Uuid;
use crate::shared::sql::{SqlParam, SqlQuery};
use vstd::prelude::*;

verus! {

/// Builds the query for one page (`limit` projects after the first
/// `offset`) of the projects, in the order they were added.
pub fn project_filter_query(limit: u32, offset: u32) -> (q: SqlQuery)
    ensures
        q.text@ == "SELECT id, title FROM projects ORDER BY rowid LIMIT ?1 OFFSET ?2"@,
        q.params@ == seq![SqlParam::Integer(limit as i64), SqlParam::Integer(offset as i64)],
{
    SqlQuery {
        text: String::from_str("SELECT id, title FROM projects ORDER BY rowid LIMIT ?1 OFFSET ?2"),
        params: vec![SqlParam::Integer(limit as i64), SqlParam::Integer(offset as i64)],
    }
}

/// The cards of `cards`, in order, whose section is `section_id`.
pub open spec fn cards_in(cards: Seq<Card>, section_id: Option<Uuid>) -> Seq<Card>
    decreases cards.len(),
{
    if cards.len() == 0 {
        Seq::empty()
    } else {
        let rest = cards_in(cards.drop_last(), section_id);
        if cards.last().section_id == section_id {
            rest.push(cards.last())
        } else {
            rest
        }
    }
}

/// Law: every card with section `section_id` is among `cards_in(cards,
/// section_id)`, and every card there has that section.
pub proof fn lemma_cards_in_exact(cards: Seq<Card>, section_id: Option<Uuid>)
    ensures
        forall|k: int|
            0 <= k < cards.len() && cards[k].section_id == section_id ==> cards_in(
                cards,
                section_id,
            ).contains(#[trigger] cards[k]),
        forall|j: int|
            0 <= j < cards_in(cards, section_id).len() ==> (#[trigger] cards_in(cards, section_id)[j]).section_id
                == section_id,
    decreases cards.len(),
{
    if cards.len() > 0 {
        let rest = cards.drop_last();
        lemma_cards_in_exact(rest, section_id);
        let r = cards_in(rest, section_id);
        assert forall|k: int|
            0 <= k < cards.len() && cards[k].section_id == section_id implies cards_in(
                cards,
                section_id,
            ).contains(#[trigger] cards[k]) by {
            if k < cards.len() - 1 {
                assert(rest[k] == cards[k]);
                let w = choose|w: int| 0 <= w < r.len() && r[w] == rest[k];
                if cards.last().section_id == section_id {
                    assert(r.push(cards.last())[w] == cards[k]);
                }
            } else {
                assert(cards_in(cards, section_id) == r.push(cards.last()));
                assert(r.push(cards.last())[r.len() as int] == cards[k]);
            }
        }
    }
}

/// Whether section `i` is the first of `sections` with its identifier.
pub open spec fn first_with_id(sections: Seq<Section>, i: int) -> bool {
    forall|j: int| 0 <= j < i ==> sections[j].id != sections[i].id
}

/// The cards listed under section `i`: those in that section, when it is the
/// first section with its identifier; none for a later duplicate.
pub open spec fn section_cards(cards: Seq<Card>, sections: Seq<Section>, i: int) -> Seq<Card> {
    if first_with_id(sections, i) {
        cards_in(cards, Some(sections[i].id))
    } else {
        Seq::empty()
    }
}

/// The position of the first section with identifier `id`, if any.
fn first_section_with_id(sections: &Vec<Section>, id: Uuid) -> (r: Option<usize>)
    ensures
        match r {
            Some(j) => j < sections@.len() && sections@[j as int].id == id && first_with_id(
                sections@,
                j as int,
            ),
            None => forall|j: int| 0 <= j < sections@.len() ==> sections@[j].id != id,
        },
{
    let n = sections.len();
    let mut j: usize = 0;
    while j < n
        invariant
            n == sections@.len(),
            0 <= j <= n,
            forall|k: int| 0 <= k < j ==> sections@[k].id != id,
        decreases n - j,
    {
        if sections[j].id.0 == id.0 {
            return Some(j);
        }
        j = j + 1;
    }
    None
}

/// One more card: `cards_in` of a longer prefix.
proof fn lemma_cards_in_step(cards: Seq<Card>, k: int, section_id: Option<Uuid>)
    requires
        0 <= k < cards.len(),
    ensures
        cards_in(cards.take(k + 1), section_id) == if cards[k].section_id == section_id {
            cards_in(cards.take(k), section_id).push(cards[k])
        } else {
            cards_in(cards.take(k), section_id)
        },
{
    assert(cards.take(k + 1).drop_last() =~= cards.take(k));
}

/// Law: grouping loses no card of a listed section and lists no card in a
/// wrong place. A card whose section is among `sections` appears under the
/// first section with that identifier; a card in no section appears among
/// the unsectioned cards; every card listed under a section, or as
/// unsectioned, has that section, or none.
pub proof fn lemma_grouping_places_cards(cards: Seq<Card>, sections: Seq<Section>, k: int, i: int)
    requires
        0 <= k < cards.len(),
        0 <= i < sections.len(),
    ensures
        first_with_id(sections, i) && cards[k].section_id == Some(sections[i].id) ==> section_cards(
            cards,
            sections,
            i,
        ).contains(cards[k]),
        cards[k].section_id is None ==> cards_in(cards, None).contains(cards[k]),
        forall|j: int|
            0 <= j < section_cards(cards, sections, i).len() ==> (#[trigger] section_cards(cards, sections, i)[j]).section_id
                == Some(sections[i].id),
        forall|j: int|
            0 <= j < cards_in(cards, None).len() ==> (#[trigger] cards_in(cards, None)[j]).section_id is None,
{
    lemma_cards_in_exact(cards, Some(sections[i].id));
    lemma_cards_in_exact(cards, None);
}

/// The number of cards listed under the sections, one count per section.
pub open spec fn listed_in_sections(cards: Seq<Card>, sections: Seq<Section>) -> int
    decreases sections.len(),
{
    if sections.len() == 0 {
        0
    } else {
        listed_in_sections(cards, sections.drop_last()) + cards_in(cards, Some(sections.last().id)).len()
    }
}

/// The number of sections whose identifier is `section_id`.
pub open spec fn sections_with_id(sections: Seq<Section>, section_id: Option<Uuid>) -> int
    decreases sections.len(),
{
    if sections.len() == 0 {
        0
    } else {
        sections_with_id(sections.drop_last(), section_id) + if section_id == Some(sections.last().id) {
            1int
        } else {
            0int
        }
    }
}

/// No two sections share an identifier.
pub open spec fn distinct_ids(sections: Seq<Section>) -> bool {
    forall|i: int, j: int| 0 <= i < j < sections.len() ==> sections[i].id != sections[j].id
}

/// Every card is in no section or in one of `sections`.
pub open spec fn sections_known(cards: Seq<Card>, sections: Seq<Section>) -> bool {
    forall|k: int|
        0 <= k < cards.len() ==> (#[trigger] cards[k]).section_id is None || exists|i: int|
            0 <= i < sections.len() && cards[k].section_id == Some(sections[i].id)
}

proof fn lemma_listed_empty(sections: Seq<Section>)
    ensures
        listed_in_sections(Seq::empty(), sections) == 0,
    decreases sections.len(),
{
    if sections.len() > 0 {
        lemma_listed_empty(sections.drop_last());
    }
}

proof fn lemma_listed_step(cards: Seq<Card>, sections: Seq<Section>)
    requires
        cards.len() > 0,
    ensures
        listed_in_sections(cards, sections) == listed_in_sections(cards.drop_last(), sections)
            + sections_with_id(sections, cards.last().section_id),
    decreases sections.len(),
{
    if sections.len() > 0 {
        lemma_listed_step(cards, sections.drop_last());
    }
}

proof fn lemma_sections_with_id_count(sections: Seq<Section>, section_id: Option<Uuid>)
    requires
        distinct_ids(sections),
    ensures
        (exists|i: int| 0 <= i < sections.len() && section_id == Some(sections[i].id)) ==> sections_with_id(
            sections,
            section_id,
        ) == 1,
        !(exists|i: int| 0 <= i < sections.len() && section_id == Some(sections[i].id)) ==> sections_with_id(
            sections,
            section_id,
        ) == 0,
    decreases sections.len(),
{
    if sections.len() > 0 {
        let rest = sections.drop_last();
        assert(distinct_ids(rest));
        lemma_sections_with_id_count(rest, section_id);
        if section_id == Some(sections.last().id) {
            assert forall|i: int| 0 <= i < rest.len() implies section_id != Some(rest[i].id) by {
                assert(sections[i] == rest[i]);
            }
        }
        if exists|i: int| 0 <= i < sections.len() && section_id == Some(sections[i].id) {
            let i = choose|i: int| 0 <= i < sections.len() && section_id == Some(sections[i].id);
            if i < rest.len() {
                assert(rest[i] == sections[i]);
            }
        } else {
            assert forall|i: int| 0 <= i < rest.len() implies section_id != Some(rest[i].id) by {
                assert(sections[i] == rest[i]);
            }
        }
    }
}

/// Law: when no two sections share an identifier and every card is in no
/// section or in one of them, grouping lists every card exactly once: the
/// cards under the sections and the unsectioned cards add up to all cards,
/// and each section lists exactly the cards in it.
pub proof fn lemma_grouping_lists_every_card_once(cards: Seq<Card>, sections: Seq<Section>)
    requires
        distinct_ids(sections),
        sections_known(cards, sections),
    ensures
        listed_in_sections(cards, sections) + cards_in(cards, None).len() == cards.len(),
        forall|i: int|
            0 <= i < sections.len() ==> #[trigger] section_cards(cards, sections, i) == cards_in(
                cards,
                Some(sections[i].id),
            ),
    decreases cards.len(),
{
    assert forall|i: int| 0 <= i < sections.len() implies #[trigger] section_cards(cards, sections, i) == cards_in(
        cards,
        Some(sections[i].id),
    ) by {
        assert(first_with_id(sections, i));
    }
    if cards.len() == 0 {
        assert(cards =~= Seq::<Card>::empty());
        lemma_listed_empty(sections);
    } else {
        let rest = cards.drop_last();
        assert forall|k: int| 0 <= k < rest.len() implies (#[trigger] rest[k]).section_id is None || exists|i: int|
            0 <= i < sections.len() && rest[k].section_id == Some(sections[i].id) by {
            assert(rest[k] == cards[k]);
        }
        lemma_grouping_lists_every_card_once(rest, sections);
        lemma_listed_step(cards, sections);
        let last = cards[cards.len() - 1];
        assert(last == cards.last());
        lemma_sections_with_id_count(sections, last.section_id);
        if last.section_id is None {
            assert(!(exists|i: int| 0 <= i < sections.len() && last.section_id == Some(sections[i].id)));
            assert(cards_in(cards, None).len() == cards_in(rest, None).len() + 1);
        } else {
            assert(exists|i: int| 0 <= i < sections.len() && last.section_id == Some(sections[i].id));
            assert(cards_in(cards, None).len() == cards_in(rest, None).len());
        }
    }
}

/// Groups the cards of a project for display: each section, in the given
/// order, with the cards in it, and the cards in no section. Card order is
/// kept everywhere; a card whose section is not among `sections` is left out.
pub fn group_project_data(project: Project, sections: Vec<Section>, cards: Vec<Card>) -> (d: ProjectData)
    ensures
        d.project == project,
        d.sections@.len() == sections@.len(),
        forall|i: int|
            0 <= i < sections@.len() ==> #[trigger] d.sections@[i].section == sections@[i]
                && d.sections@[i].cards@ == section_cards(cards@, sections@, i),
        d.cards_without_section@ == cards_in(cards@, None),
{
    let n = sections.len();
    let mut buckets: Vec<Vec<Card>> = Vec::new();
    let mut i: usize = 0;
    while i < n
        invariant
            n == sections@.len(),
            0 <= i <= n,
            buckets@.len() == i,
            forall|j: int| 0 <= j < i ==> (#[trigger] buckets@[j])@.len() == 0,
        decreases n - i,
    {
        buckets.push(Vec::new());
        i = i + 1;
    }
    let ghost all = cards@;
    assert(all.len() == cards.len());
    let mut without: Vec<Card> = Vec::new();
    assert(all.take(0) =~= Seq::<Card>::empty());
    let mut k: usize = 0;
    for card in it: cards.into_iter()
        invariant
            n == sections@.len(),
            all == it.seq(),
            all.len() <= usize::MAX,
            k == it.index(),
            k <= all.len(),
            buckets@.len() == n,
            forall|j: int|
                0 <= j < n ==> (#[trigger] buckets@[j])@ == if first_with_id(sections@, j) {
                    cards_in(all.take(k as int), Some(sections@[j].id))
                } else {
                    Seq::<Card>::empty()
                },
            without@ == cards_in(all.take(k as int), None),
    {
        proof {
            assert(all[k as int] == card);
            lemma_cards_in_step(all, k as int, None);
            assert forall|j: int| 0 <= j < n implies #[trigger] cards_in(all.take(k + 1), Some(sections@[j].id)) == if card.section_id == Some(sections@[j].id) {
                cards_in(all.take(k as int), Some(sections@[j].id)).push(card)
            } else {
                cards_in(all.take(k as int), Some(sections@[j].id))
            } by {
                lemma_cards_in_step(all, k as int, Some(sections@[j].id));
            }
        }
        match card.section_id {
            None => {
                without.push(card);
            },
            Some(sid) => {
                let found = first_section_with_id(&sections, sid);
                if let Some(j) = found {
                    buckets[j].push(card);
                }
            },
        }
        k = k + 1;
    }
    assert(all.take(k as int) =~= all);
    let ghost secs = sections@;
    let mut out: Vec<SectionWithCards> = Vec::new();
    let mut i: usize = 0;
    for section in it: sections.into_iter()
        invariant
            secs == it.seq(),
            n == secs.len(),
            i == it.index(),
            buckets@.len() == n,
            forall|j: int|
                i <= j < n ==> (#[trigger] buckets@[j])@ == section_cards(all, secs, j),
            out@.len() == i,
            forall|j: int|
                0 <= j < i ==> #[trigger] out@[j].section == secs[j] && out@[j].cards@
                    == section_cards(all, secs, j),
    {
        assert(secs[i as int] == section);
        let mut bucket: Vec<Card> = Vec::new();
        std::mem::swap(&mut bucket, &mut buckets[i]);
        assert(bucket@ == section_cards(all, secs, i as int));
        out.push(SectionWithCards { section, cards: bucket });
        i = i + 1;
    }
    ProjectData { project, sections: out, cards_without_section: without }
}

} // verus!
