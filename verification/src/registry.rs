//! The bot registry: which bot answers to which identifier.
//!
//! The registry is filled before the service starts and only read
//! afterwards. What a bot is, beyond its identifier, is the caller's: the
//! registry keeps it and hands it back untouched.

use vstd::prelude::*;

verus! {

/// One registered bot.
pub struct Entry<B> {
    name: String,
    bot: B,
}

/// The identifiers of a sequence of entries, in order.
pub closed spec fn entry_names<B>(entries: Seq<Entry<B>>) -> Seq<Seq<char>> {
    Seq::new(entries.len(), |i: int| entries[i].name@)
}

/// The bots of a sequence of entries, in order.
pub closed spec fn entry_bots<B>(entries: Seq<Entry<B>>) -> Seq<B> {
    Seq::new(entries.len(), |i: int| entries[i].bot)
}

/// The first position at which `id` stands among `names`, if it stands there.
pub open spec fn first_position(names: Seq<Seq<char>>, id: Seq<char>) -> Option<int>
    decreases names.len(),
{
    if names.len() == 0 {
        None
    } else {
        match first_position(names.drop_last(), id) {
            Some(i) => Some(i),
            None => if names.last() == id {
                Some(names.len() - 1)
            } else {
                None
            },
        }
    }
}

/// `first_position` finds an identifier exactly when it is among the names,
/// and then at the first place where it stands.
pub proof fn lemma_first_position(names: Seq<Seq<char>>, id: Seq<char>)
    ensures
        first_position(names, id) is None <==> !names.contains(id),
        first_position(names, id) matches Some(i) ==> 0 <= i < names.len() && names[i] == id
            && forall|j: int| 0 <= j < i ==> names[j] != id,
    decreases names.len(),
{
    if names.len() > 0 {
        let front = names.drop_last();
        lemma_first_position(front, id);
        assert(forall|j: int| 0 <= j < front.len() ==> front[j] == names[j]);
        match first_position(front, id) {
            Some(i) => {
                assert(names[i] == id);
            },
            None => {
                if names.last() == id {
                    assert forall|j: int| 0 <= j < names.len() - 1 implies names[j] != id by {
                        assert(front.contains(front[j]));
                    }
                } else {
                    assert forall|j: int| 0 <= j < names.len() implies names[j] != id by {
                        if j < names.len() - 1 {
                            assert(front.contains(front[j]));
                        }
                    }
                }
            },
        }
    }
}

/// Whether no identifier stands twice among `names`.
pub open spec fn distinct(names: Seq<Seq<char>>) -> bool {
    forall|i: int, j: int| 0 <= i < j < names.len() ==> names[i] != names[j]
}

/// The bots of the service, each under its identifier.
pub struct BotRegistry<B> {
    entries: Vec<Entry<B>>,
}

impl<B> View for BotRegistry<B> {
    type V = Seq<Seq<char>>;

    /// The registered identifiers, in the order of their registration.
    closed spec fn view(&self) -> Seq<Seq<char>> {
        entry_names(self.entries@)
    }
}

impl<B> BotRegistry<B> {
    /// No identifier is registered twice.
    #[verifier::type_invariant]
    closed spec fn no_identifier_twice(self) -> bool {
        distinct(entry_names(self.entries@))
    }

    /// The registered bots, each at the position of its identifier.
    pub closed spec fn bots(&self) -> Seq<B> {
        entry_bots(self.entries@)
    }

    /// There is one bot for each identifier.
    pub proof fn lemma_one_bot_each(&self)
        ensures
            self.bots().len() == self@.len(),
    {
    }

    /// A registry without bots.
    pub fn new() -> (registry: BotRegistry<B>)
        ensures
            registry@ == Seq::<Seq<char>>::empty(),
            registry.bots() == Seq::<B>::empty(),
    {
        let registry = BotRegistry { entries: Vec::new() };
        registry
    }

    /// How many bots are registered.
    pub fn len(&self) -> (n: usize)
        ensures
            n == self@.len(),
            n == self.bots().len(),
    {
        self.entries.len()
    }

    /// The position of the bot registered under `id`, if there is one.
    pub fn find(&self, id: &str) -> (found: Option<usize>)
        ensures
            found is Some <==> self@.contains(id@),
            match found {
                Some(i) => first_position(self@, id@) == Some(i as int),
                None => first_position(self@, id@) is None,
            },
    {
        let wanted: String = id.to_owned();
        let mut i: usize = 0;
        proof {
            lemma_first_position(self@, id@);
        }
        while i < self.entries.len()
            invariant
                i <= self.entries@.len(),
                wanted@ == id@,
                self@ == entry_names(self.entries@),
                forall|j: int| 0 <= j < i ==> self@[j] != id@,
            decreases self.entries@.len() - i,
        {
            if self.entries[i].name == wanted {
                proof {
                    lemma_first_position(self@, id@);
                    assert(self@[i as int] == id@);
                }
                return Some(i);
            }
            i = i + 1;
        }
        proof {
            assert(!self@.contains(id@));
        }
        None
    }

    /// The bot at a position that `find` gave; `None` beyond the last bot.
    pub fn bot_at(&self, position: usize) -> (bot: Option<&B>)
        ensures
            match bot {
                Some(b) => position < self@.len() && *b == self.bots()[position as int],
                None => position >= self@.len(),
            },
    {
        if position < self.entries.len() {
            Some(&self.entries[position].bot)
        } else {
            None
        }
    }

    /// The registry with `bot` registered under `name`. A bot that is
    /// already registered under that identifier gives way to the new one,
    /// and the identifiers stay as they were.
    pub fn with_bot(self, name: &str, bot: B) -> (registry: BotRegistry<B>)
        ensures
            match first_position(self@, name@) {
                Some(i) => registry@ == self@ && registry.bots() == self.bots().update(i, bot),
                None => registry@ == self@.push(name@) && registry.bots() == self.bots().push(
                    bot,
                ),
            },
            self@.contains(name@) <==> first_position(self@, name@) is Some,
    {
        proof {
            use_type_invariant(&self);
        }
        let found: Option<usize> = self.find(name);
        let mut entries: Vec<Entry<B>> = self.entries;
        let ghost before = entry_names(entries@);
        match found {
            Some(i) => {
                proof {
                    lemma_first_position(before, name@);
                }
                entries.set(i, Entry { name: String::from_str(name), bot });
                assert(entry_names(entries@) =~= before);
            },
            None => {
                entries.push(Entry { name: String::from_str(name), bot });
                assert(distinct(entry_names(entries@))) by {
                    assert forall|i: int, j: int|
                        0 <= i < j < entry_names(entries@).len() implies entry_names(entries@)[i]
                        != entry_names(entries@)[j] by {
                        if j == before.len() {
                            assert(before.contains(before[i]));
                        } else {
                            assert(before[i] == entry_names(entries@)[i]);
                            assert(before[j] == entry_names(entries@)[j]);
                        }
                    }
                }
            },
        }
        BotRegistry { entries }
    }

    /// The registered identifiers, in the order of their registration. None
    /// stands twice.
    pub fn names(&self) -> (names: Vec<String>)
        ensures
            crate::text::texts(names@) == self@,
            distinct(self@),
    {
        proof {
            use_type_invariant(self);
        }
        let mut names: Vec<String> = Vec::new();
        let mut i: usize = 0;
        while i < self.entries.len()
            invariant
                i <= self.entries@.len(),
                names@.len() == i,
                forall|j: int| 0 <= j < i ==> names@[j]@ == self.entries@[j].name@,
            decreases self.entries@.len() - i,
        {
            names.push(self.entries[i].name.clone());
            i = i + 1;
        }
        names
    }
}

} // verus!
