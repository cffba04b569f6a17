use crate::card::changes::{changes, deleted_version, lemma_changes_extend_history, push_changes};
use crate::card::replay::{
    created_state, history_error_message, lemma_run_error_sticks, lemma_run_single, lemma_run_take_step,
    option_state, rebuild, run, update_state, HistoryError,
};
use crate::shared::datetime::UtcDateTime;
use crate::shared::error::AppErr;
use crate::shared::id::Uuid;
use vstd::prelude::*;

verus! {

/// One entry of a card's history. A card is the result of replaying its
/// history from the first entry on; the history is only ever appended to.
#[derive(Debug, PartialEq, Eq)]
pub enum CardHistory {
    CreateCard { id: Uuid, title: String },
    BindProject { project_id: Option<Uuid> },
    BindSection { section_id: Option<Uuid> },
    ChangeDescription { description: String },
    ChangeDeadline { deadline: Option<UtcDateTime> },
    ChangeTitle { title: String },
    DeleteCard,
}

/// A card of the board, with the history that it was built from.
#[derive(Debug, PartialEq, Eq)]
pub struct Card {
    pub id: Uuid,
    pub title: String,
    pub description: String,
    pub deadline: Option<UtcDateTime>,
    pub deleted: bool,
    pub project_id: Option<Uuid>,
    pub section_id: Option<Uuid>,
    pub history: Vec<CardHistory>,
}

/// The abstract value of a history entry (its strings taken by their characters).
pub enum CardEvent {
    CreateCard { id: Uuid, title: Seq<char> },
    BindProject { project_id: Option<Uuid> },
    BindSection { section_id: Option<Uuid> },
    ChangeDescription { description: Seq<char> },
    ChangeDeadline { deadline: Option<UtcDateTime> },
    ChangeTitle { title: Seq<char> },
    DeleteCard,
}

/// The abstract value of a card's fields, without its history.
pub struct CardState {
    pub id: Uuid,
    pub title: Seq<char>,
    pub description: Seq<char>,
    pub deadline: Option<UtcDateTime>,
    pub deleted: bool,
    pub project_id: Option<Uuid>,
    pub section_id: Option<Uuid>,
}

impl View for CardHistory {
    type V = CardEvent;

    open spec fn view(&self) -> CardEvent {
        match self {
            CardHistory::CreateCard { id, title } => CardEvent::CreateCard { id: *id, title: title@ },
            CardHistory::BindProject { project_id } => CardEvent::BindProject { project_id: *project_id },
            CardHistory::BindSection { section_id } => CardEvent::BindSection { section_id: *section_id },
            CardHistory::ChangeDescription { description } => CardEvent::ChangeDescription {
                description: description@,
            },
            CardHistory::ChangeDeadline { deadline } => CardEvent::ChangeDeadline { deadline: *deadline },
            CardHistory::ChangeTitle { title } => CardEvent::ChangeTitle { title: title@ },
            CardHistory::DeleteCard => CardEvent::DeleteCard,
        }
    }
}

/// The abstract values of a sequence of history entries.
pub open spec fn events_of(h: Seq<CardHistory>) -> Seq<CardEvent> {
    h.map_values(|e: CardHistory| e@)
}

impl Card {
    /// The abstract value of the card's fields.
    pub open spec fn state(&self) -> CardState {
        CardState {
            id: self.id,
            title: self.title@,
            description: self.description@,
            deadline: self.deadline,
            deleted: self.deleted,
            project_id: self.project_id,
            section_id: self.section_id,
        }
    }

    /// The abstract value of the card's history.
    pub open spec fn events(&self) -> Seq<CardEvent> {
        events_of(self.history@)
    }

    /// The card's fields are exactly what its history rebuilds.
    pub open spec fn is_consistent(&self) -> bool {
        rebuild(self.events()) == Ok::<CardState, HistoryError>(self.state())
    }
}

impl Card {
    /// A card that has not been stored yet: nil identifier, the given title,
    /// project and section, empty description, no deadline, no history.
    pub fn draft(title: &str, project_id: Option<Uuid>, section_id: Option<Uuid>) -> (r: Card)
        ensures
            r.state() == (CardState {
                id: Uuid(0),
                title: title@,
                description: Seq::empty(),
                deadline: None,
                deleted: false,
                project_id,
                section_id,
            }),
            r.history@.len() == 0,
    {
        Card {
            id: Uuid::nil(),
            title: title.to_owned(),
            description: String::new(),
            deadline: None,
            deleted: false,
            project_id,
            section_id,
            history: Vec::new(),
        }
    }

    /// The card with new title, description, deadline, project and section;
    /// its identifier, deletion mark and history are kept.
    pub fn edited(
        self,
        title: &str,
        description: &str,
        deadline: Option<UtcDateTime>,
        project_id: Option<Uuid>,
        section_id: Option<Uuid>,
    ) -> (r: Card)
        ensures
            r.state() == (CardState {
                title: title@,
                description: description@,
                deadline,
                project_id,
                section_id,
                ..self.state()
            }),
            r.history == self.history,
    {
        Card {
            title: title.to_owned(),
            description: description.to_owned(),
            deadline,
            project_id,
            section_id,
            ..self
        }
    }

    /// The card taken out of its section; it stays in its project.
    pub fn detached_from_section(self) -> (r: Card)
        ensures
            r.state() == (CardState { section_id: None, ..self.state() }),
            r.history == self.history,
    {
        Card { section_id: None, ..self }
    }

    /// Stores a new card under identifier `id`: its history is a `CreateCard`
    /// entry followed by the changes from the freshly created card to `card`.
    /// The result always rebuilds from its history.
    pub fn save_new(card: Card, id: Uuid) -> (r: Card)
        ensures
            r.state() == (CardState { id, ..card.state() }),
            r.events() == seq![CardEvent::CreateCard { id, title: card.title@ }] + changes(
                created_state(id, card.title@),
                CardState { id, ..card.state() },
            ),
            r.is_consistent(),
    {
        let blank = Card::created(id, &card.title);
        let mut history: Vec<CardHistory> = Vec::new();
        history.push(CardHistory::CreateCard { id, title: card.title.clone() });
        let ghost first = events_of(history@);
        assert(first =~= seq![CardEvent::CreateCard { id, title: card.title@ }]);
        let target = Card { id, history: Vec::new(), ..card };
        push_changes(&mut history, &blank, &target);
        proof {
            lemma_run_single(Ok(None), CardEvent::CreateCard { id, title: card.title@ });
            lemma_changes_extend_history(first, blank.state(), target.state());
        }
        Card { history, ..target }
    }

    /// Stores `card` over the stored version `stored` of the same card: the
    /// stored history is extended with the changes from `stored` to `card`.
    /// When `stored` rebuilds from its history and a deleted card stays
    /// deleted, so does the result.
    pub fn save_update(stored: &Card, card: Card) -> (r: Card)
        requires
            card.id == stored.id,
        ensures
            r.state() == card.state(),
            r.events() == stored.events() + changes(stored.state(), card.state()),
            stored.is_consistent() && (stored.deleted ==> card.deleted) ==> r.is_consistent(),
    {
        let mut history = stored.history.clone();
        assert(history@ =~= stored.history@);
        push_changes(&mut history, stored, &card);
        proof {
            if stored.is_consistent() && (stored.deleted ==> card.deleted) {
                lemma_changes_extend_history(stored.events(), stored.state(), card.state());
            }
        }
        Card { history, ..card }
    }

    /// Marks the card deleted, appending a `DeleteCard` entry; a card that is
    /// already deleted is returned as it is.
    pub fn mark_deleted(self) -> (r: Card)
        ensures
            (r.state(), r.events()) == deleted_version(self.state(), self.events()),
            r.deleted,
            r.state() == (CardState { deleted: true, ..self.state() }),
            !self.deleted ==> r.events() == self.events().push(CardEvent::DeleteCard),
            self.deleted ==> r.events() == self.events(),
            self.is_consistent() ==> r.is_consistent(),
    {
        if self.deleted {
            return self;
        }
        let mut target = self.clone();
        target.deleted = true;
        let r = Card::save_update(&self, target);
        assert(changes(self.state(), target.state()) =~= seq![CardEvent::DeleteCard]);
        assert(self.events() + seq![CardEvent::DeleteCard] =~= self.events().push(CardEvent::DeleteCard));
        r
    }
}

impl Clone for CardHistory {
    fn clone(&self) -> (r: Self)
        ensures
            r == *self,
    {
        match self {
            CardHistory::CreateCard { id, title } => CardHistory::CreateCard { id: *id, title: title.clone() },
            CardHistory::BindProject { project_id } => CardHistory::BindProject { project_id: *project_id },
            CardHistory::BindSection { section_id } => CardHistory::BindSection { section_id: *section_id },
            CardHistory::ChangeDescription { description } => CardHistory::ChangeDescription {
                description: description.clone(),
            },
            CardHistory::ChangeDeadline { deadline } => CardHistory::ChangeDeadline { deadline: *deadline },
            CardHistory::ChangeTitle { title } => CardHistory::ChangeTitle { title: title.clone() },
            CardHistory::DeleteCard => CardHistory::DeleteCard,
        }
    }
}

impl Clone for Card {
    fn clone(&self) -> (r: Self)
        ensures
            r.state() == self.state(),
            r.history@ == self.history@,
    {
        let history = self.history.clone();
        assert(history@ =~= self.history@);
        Card {
            id: self.id,
            title: self.title.clone(),
            description: self.description.clone(),
            deadline: self.deadline,
            deleted: self.deleted,
            project_id: self.project_id,
            section_id: self.section_id,
            history,
        }
    }
}

impl Card {
    /// The card a `CreateCard` entry starts, with an empty history.
    fn created(id: Uuid, title: &String) -> (r: Card)
        ensures
            r.state() == created_state(id, title@),
            r.history@.len() == 0,
    {
        Card {
            id,
            title: title.clone(),
            description: String::new(),
            deadline: None,
            deleted: false,
            project_id: None,
            section_id: None,
            history: Vec::new(),
        }
    }

    /// The card after an entry other than `CreateCard`; the history is kept.
    fn updated(self, e: &CardHistory) -> (r: Card)
        requires
            !(*e is CreateCard),
        ensures
            r.state() == update_state(self.state(), e@),
            r.history == self.history,
    {
        match e {
            CardHistory::CreateCard { .. } => self,
            CardHistory::BindProject { project_id } => {
                let section_id = if project_id.is_none() { None } else { self.section_id };
                Card { project_id: *project_id, section_id, ..self }
            },
            CardHistory::BindSection { section_id } => Card { section_id: *section_id, ..self },
            CardHistory::ChangeDescription { description } => Card {
                description: description.clone(),
                ..self
            },
            CardHistory::ChangeDeadline { deadline } => Card { deadline: *deadline, ..self },
            CardHistory::ChangeTitle { title } => Card { title: title.clone(), ..self },
            CardHistory::DeleteCard => Card { deleted: true, ..self },
        }
    }

    /// Rebuilds a card by replaying its history. The history must begin with
    /// a `CreateCard` entry and hold no other; the card keeps the history.
    pub fn apply(history: Vec<CardHistory>) -> (r: Result<Card, AppErr>)
        ensures
            match rebuild(events_of(history@)) {
                Ok(s) => r matches Ok(c) && c.state() == s && c.history == history,
                Err(k) => r matches Err(AppErr::Validation(m)) && m@ == history_error_message(k),
            },
    {
        let ghost events = events_of(history@);
        let n = history.len();
        let mut card: Option<Card> = None;
        let mut i: usize = 0;
        while i < n
            invariant
                n == history.len(),
                events == events_of(history@),
                0 <= i <= n,
                run(Ok(None), events.take(i as int)) == Ok::<Option<CardState>, HistoryError>(option_state(card)),
            decreases n - i,
        {
            proof {
                lemma_run_take_step(Ok(None), events, i as int);
            }
            let item = &history[i];
            assert(events[i as int] == item@);
            match item {
                CardHistory::CreateCard { id, title } => {
                    if card.is_some() {
                        proof {
                            lemma_run_error_sticks(Ok(None), events, i + 1);
                        }
                        return Err(
                            AppErr::Validation(
                                "Card history contains more than one CreateCard event".to_owned(),
                            ),
                        );
                    }
                    card = Some(Card::created(*id, title));
                },
                _ => {
                    match card {
                        Some(c) => {
                            card = Some(c.updated(item));
                        },
                        None => {
                            proof {
                                lemma_run_error_sticks(Ok(None), events, i + 1);
                            }
                            return Err(
                                AppErr::Validation(
                                    "Card history must start with a CreateCard event".to_owned(),
                                ),
                            );
                        },
                    }
                },
            }
            i = i + 1;
        }
        assert(events.take(n as int) =~= events);
        match card {
            Some(mut c) => {
                c.history = history;
                Ok(c)
            },
            None => Err(
                AppErr::Validation("Card history does not contain a CreateCard event".to_owned()),
            ),
        }
    }
}

} // verus!
