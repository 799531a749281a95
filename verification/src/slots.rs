//! Where the screens are: a registry of screens by key, and the two slots for
//! the active screen and the one that was active before it.
//!
//! Every registered screen is in exactly one of the three places, and a
//! switch moves screens between them without ever copying or dropping one.

use crate::application::MissingScreenError;
use crate::command::Command;
use crate::message::Message;
use crate::screen::{BoxedScreen, ScreenKey};
use std::collections::HashMap;
use vstd::prelude::*;
use vstd::std_specs::iter::IteratorSpec;

verus! {

/// A screen together with the key it is registered under.
pub struct ScreenEntry {
    pub key: ScreenKey,
    pub screen: BoxedScreen,
}

/// The three places as mathematical values.
pub struct SlotsView {
    /// Every screen that is neither active nor the previous one.
    pub registry: Map<ScreenKey, BoxedScreen>,
    pub active: Option<ScreenEntry>,
    pub previous: Option<ScreenEntry>,
}

impl SlotsView {
    /// No key is in two places at once, and the screens can be counted.
    pub open spec fn wf(self) -> bool {
        &&& self.registry.dom().finite()
        &&& self.active matches Some(a) ==> !self.registry.contains_key(a.key)
        &&& self.previous matches Some(p) ==> !self.registry.contains_key(p.key)
        &&& self.active matches Some(a) ==> (self.previous matches Some(p) ==> a.key != p.key)
    }

    /// The keys of all screens held, wherever they are.
    pub open spec fn keys(self) -> Set<ScreenKey> {
        self.registry.dom() + Self::slot_key(self.active) + Self::slot_key(self.previous)
    }

    /// The number of screens held, wherever they are.
    pub open spec fn count(self) -> nat {
        self.registry.len() + Self::slot_key(self.active).len() + Self::slot_key(
            self.previous,
        ).len()
    }

    /// The key in a slot, as a set of at most one element.
    pub open spec fn slot_key(slot: Option<ScreenEntry>) -> Set<ScreenKey> {
        match slot {
            Some(entry) => set![entry.key],
            None => Set::empty(),
        }
    }

    /// The screen held under `key`, wherever it is.
    pub open spec fn instance(self, key: ScreenKey) -> Option<BoxedScreen> {
        if self.active is Some && self.active->0.key == key {
            Some(self.active->0.screen)
        } else if self.previous is Some && self.previous->0.key == key {
            Some(self.previous->0.screen)
        } else if self.registry.contains_key(key) {
            Some(self.registry[key])
        } else {
            None
        }
    }

    /// Registration: the registry holds `screen` under `key`, in place of
    /// whatever it held under that key before.
    pub open spec fn register(self, key: ScreenKey, screen: BoxedScreen) -> SlotsView {
        SlotsView { registry: self.registry.insert(key, screen), ..self }
    }

    /// The active screen has become `screen`, under the key it had. Without
    /// an active screen nothing changes.
    pub open spec fn updated(self, screen: BoxedScreen) -> SlotsView {
        match self.active {
            Some(entry) => SlotsView {
                active: Some(ScreenEntry { key: entry.key, screen }),
                ..self
            },
            None => self,
        }
    }

    /// Whether `registry` holds, under every key of this registry, the screen
    /// that this registry holds under it once that screen has been handed
    /// `message`, and holds nothing else.
    pub open spec fn told(self, registry: Map<ScreenKey, BoxedScreen>, message: Message) -> bool {
        &&& registry.dom() == self.registry.dom()
        &&& forall|key: ScreenKey|
            self.registry.contains_key(key) ==> (#[trigger] registry[key]).took(
                self.registry[key],
                message,
            )
    }

    /// The registry once the screen under `key` has left it and the screen
    /// that `previous` held has come back to it.
    pub open spec fn registry_after(self, key: ScreenKey) -> Map<ScreenKey, BoxedScreen> {
        match self.previous {
            Some(p) => self.registry.remove(key).insert(p.key, p.screen),
            None => self.registry.remove(key),
        }
    }

    /// A switch to the screen under `key`. Where the registry holds the key,
    /// that screen becomes the active one, the active one becomes the previous
    /// one, and the previous one goes back to the registry. Where it does not,
    /// nothing moves.
    pub open spec fn activate(self, key: ScreenKey) -> SlotsView {
        if self.registry.contains_key(key) {
            SlotsView {
                registry: self.registry_after(key),
                active: Some(ScreenEntry { key, screen: self.registry[key] }),
                previous: self.active,
            }
        } else {
            self
        }
    }
}

/// The registry and the two slots.
pub struct Slots {
    registry: HashMap<ScreenKey, BoxedScreen>,
    active: Option<ScreenEntry>,
    previous: Option<ScreenEntry>,
}

impl View for Slots {
    type V = SlotsView;

    closed spec fn view(&self) -> SlotsView {
        SlotsView { registry: self.registry@, active: self.active, previous: self.previous }
    }
}

impl Slots {
    /// Slots over a registry of screens, with no screen active yet.
    pub fn new(registry: HashMap<ScreenKey, BoxedScreen>) -> (slots: Slots)
        ensures
            slots@ == (SlotsView { registry: registry@, active: None, previous: None }),
            slots@.wf(),
    {
        Slots { registry, active: None, previous: None }
    }

    /// Takes the screen under `key` out of the registry.
    fn get_screen(&mut self, key: ScreenKey) -> (result: Result<ScreenEntry, MissingScreenError>)
        ensures
            final(self)@.active == old(self)@.active,
            final(self)@.previous == old(self)@.previous,
            final(self)@.registry == old(self)@.registry.remove(key),
            result == if old(self)@.registry.contains_key(key) {
                Ok::<ScreenEntry, MissingScreenError>(
                    ScreenEntry { key, screen: old(self)@.registry[key] },
                )
            } else {
                Err::<ScreenEntry, MissingScreenError>(MissingScreenError(key))
            },
    {
        match self.registry.remove(&key) {
            Some(screen) => Ok(ScreenEntry { key, screen }),
            None => Err(MissingScreenError(key)),
        }
    }

    /// Switches to the screen registered under `key`. The switch fails, and
    /// moves nothing, exactly when the registry does not hold the key: a
    /// screen that is active or was active just before is not in the registry.
    pub fn activate_screen(&mut self, key: ScreenKey) -> (result: Result<(), MissingScreenError>)
        requires
            old(self)@.wf(),
        ensures
            final(self)@ == old(self)@.activate(key),
            final(self)@.wf(),
            final(self)@.keys() == old(self)@.keys(),
            final(self)@.count() == old(self)@.count(),
            result == if old(self)@.registry.contains_key(key) {
                Ok::<(), MissingScreenError>(())
            } else {
                Err::<(), MissingScreenError>(MissingScreenError(key))
            },
            result is Err ==> final(self)@ == old(self)@,
    {
        let entry = match self.get_screen(key) {
            Ok(entry) => entry,
            Err(missing) => {
                assert(self@.registry =~= old(self)@.registry);
                return Err(missing);
            },
        };
        let previous = self.active.take();
        self.active = Some(entry);
        let replaced = self.previous.take();
        self.previous = previous;
        if let Some(entry) = replaced {
            let displaced = self.registry.insert(entry.key, entry.screen);
            assert(displaced is None);
        }
        proof {
            old(self)@.lemma_activate(key);
        }
        Ok(())
    }

    /// The key of the active screen, if there is one.
    pub fn active_key(&self) -> (key: Option<ScreenKey>)
        ensures
            key == match self@.active {
                Some(entry) => Some(entry.key),
                None => None,
            },
    {
        match &self.active {
            Some(entry) => Some(entry.key),
            None => None,
        }
    }

    /// The key of the screen that was active before the active one, if there
    /// is one.
    pub fn previous_key(&self) -> (key: Option<ScreenKey>)
        ensures
            key == match self@.previous {
                Some(entry) => Some(entry.key),
                None => None,
            },
    {
        match &self.previous {
            Some(entry) => Some(entry.key),
            None => None,
        }
    }

    /// Whether the registry holds a screen under `key`.
    pub fn is_registered(&self, key: ScreenKey) -> (registered: bool)
        ensures
            registered == self@.registry.contains_key(key),
    {
        self.registry.contains_key(&key)
    }

    /// The number of screens in the registry.
    pub fn registered(&self) -> (count: usize)
        ensures
            count == self@.registry.len(),
    {
        self.registry.len()
    }

    /// The active screen, if there is one.
    pub fn active_screen(&self) -> (screen: Option<&BoxedScreen>)
        ensures
            screen == match self@.active {
                Some(entry) => Some(&entry.screen),
                None => None,
            },
    {
        match &self.active {
            Some(entry) => Some(&entry.screen),
            None => None,
        }
    }
}

impl Slots {
    /// Hands `message` to the active screen and passes on its answer. Without
    /// an active screen there is no answer. No screen changes place; only the
    /// active screen itself may have changed.
    pub fn update_active(&mut self, message: Message) -> (answer: Option<Command>)
        ensures
            final(self)@.active is Some <==> old(self)@.active is Some,
            final(self)@.active matches Some(entry) ==> final(self)@ == old(self)@.updated(
                entry.screen,
            ),
            old(self)@.active matches Some(entry) ==> final(self)@.active->0.screen.took(
                entry.screen,
                message,
            ),
            old(self)@.active is None ==> final(self)@ == old(self)@ && answer is None,
            old(self)@.wf() ==> final(self)@.wf(),
            final(self)@.keys() == old(self)@.keys(),
    {
        match self.active.take() {
            Some(mut entry) => {
                let answer = entry.screen.update(message);
                self.active = Some(entry);
                answer
            },
            None => None,
        }
    }

    /// The keys of the registry, each once, in no particular order.
    fn registered_keys(&self) -> (keys: Vec<ScreenKey>)
        ensures
            keys@.no_duplicates(),
            keys@.to_set() == self@.registry.dom(),
    {
        let mut keys: Vec<ScreenKey> = Vec::new();
        let ghost all = self.registry.keys().remaining();
        for key in iter: self.registry.keys()
            invariant
                iter.seq() == all,
                keys@.len() == iter.index(),
                keys@ == all.unref().take(iter.index()),
        {
            keys.push(*key);
            assert(keys@ =~= all.unref().take(iter.index() + 1));
        }
        proof {
            vstd::std_specs::hash::axiom_spec_keys_iter(&self.registry);
            assert(keys@ =~= all.unref());
            assert forall|i: int, j: int| 0 <= i < j < keys@.len() implies keys@[i] != keys@[j] by {
                assert(all[i] != all[j]);
            }
        }
        keys
    }

    /// Hands a `Shutdown` message to every screen in the registry, once, and
    /// drops their answers. The active and the previous screen are not told.
    /// No screen changes place.
    pub fn shutdown_screens(&mut self)
        ensures
            old(self)@.told(final(self)@.registry, Message::Shutdown),
            final(self)@.registry.dom() == old(self)@.registry.dom(),
            final(self)@.active == old(self)@.active,
            final(self)@.previous == old(self)@.previous,
            old(self)@.wf() ==> final(self)@.wf(),
            final(self)@.keys() == old(self)@.keys(),
    {
        let keys = self.registered_keys();
        let mut index: usize = 0;
        while index < keys.len()
            invariant
                index <= keys.len(),
                keys@.no_duplicates(),
                keys@.to_set() == old(self).registry@.dom(),
                self.registry@.dom() == old(self).registry@.dom(),
                self.active == old(self).active,
                self.previous == old(self).previous,
                forall|i: int|
                    0 <= i < index ==> (#[trigger] self.registry@[keys@[i]]).took(
                        old(self).registry@[keys@[i]],
                        Message::Shutdown,
                    ),
                forall|i: int|
                    index <= i < keys.len() ==> #[trigger] self.registry@[keys@[i]] == old(
                        self,
                    ).registry@[keys@[i]],
            decreases keys.len() - index,
        {
            let key = keys[index];
            let ghost before = self.registry@;
            assert(keys@.to_set().contains(keys@[index as int]));
            if let Some(mut screen) = self.registry.remove(&key) {
                let _ = screen.update(Message::Shutdown);
                self.registry.insert(key, screen);
                assert(self.registry@.dom() =~= old(self).registry@.dom());
                assert forall|i: int| 0 <= i < keys.len() && i != index implies #[trigger]
                    self.registry@[keys@[i]] == before[keys@[i]] by {
                    assert(keys@[i] != keys@[index as int]);
                }
            }
            index += 1;
        }
        assert forall|key: ScreenKey| old(self)@.registry.contains_key(key) implies (
        #[trigger] self@.registry[key]).took(old(self)@.registry[key], Message::Shutdown) by {
            assert(keys@.to_set().contains(key));
            let i = choose|i: int| 0 <= i < keys@.len() && keys@[i] == key;
            assert(self.registry@[keys@[i]].took(old(self).registry@[keys@[i]], Message::Shutdown));
        }
    }
}

/// One thing that can happen to the screens: a registration or a switch.
pub enum SlotOp {
    Register { key: ScreenKey, screen: BoxedScreen },
    Switch { key: ScreenKey },
}

impl SlotsView {
    /// Whether `op` can happen here. A switch always can; a registration can
    /// unless its key belongs to the active or the previous screen.
    pub open spec fn admits(self, op: SlotOp) -> bool {
        op matches SlotOp::Register { key, .. } ==> !Self::slot_key(self.active).contains(key)
            && !Self::slot_key(self.previous).contains(key)
    }

    /// The screens after `op`.
    pub open spec fn apply(self, op: SlotOp) -> SlotsView {
        match op {
            SlotOp::Register { key, screen } => self.register(key, screen),
            SlotOp::Switch { key } => self.activate(key),
        }
    }

    /// The screens after all of `ops`, from first to last.
    pub open spec fn replay(self, ops: Seq<SlotOp>) -> SlotsView
        decreases ops.len(),
    {
        if ops.len() == 0 {
            self
        } else {
            self.replay(ops.drop_last()).apply(ops.last())
        }
    }

    /// Whether each of `ops` can happen at its turn.
    pub open spec fn admits_all(self, ops: Seq<SlotOp>) -> bool
        decreases ops.len(),
    {
        ops.len() > 0 ==> self.admits_all(ops.drop_last()) && self.replay(ops.drop_last()).admits(
            ops.last(),
        )
    }

    /// The keys that `ops` register.
    pub open spec fn registered(ops: Seq<SlotOp>) -> Set<ScreenKey> {
        Set::new(
            |key: ScreenKey|
                exists|i: int| 0 <= i < ops.len() && Self::registers(#[trigger] ops[i], key),
        )
    }

    /// Whether `op` registers a screen under `key`.
    pub open spec fn registers(op: SlotOp, key: ScreenKey) -> bool {
        op matches SlotOp::Register { key: registered, .. } && registered == key
    }

    /// The screens held are as many as the keys held: no screen is counted
    /// twice.
    pub proof fn lemma_count_is_the_number_of_keys(self)
        requires
            self.wf(),
        ensures
            self.keys().finite(),
            self.count() == self.keys().len(),
    {
        let registry = self.registry.dom();
        let active = Self::slot_key(self.active);
        let previous = Self::slot_key(self.previous);
        assert(registry.disjoint(active));
        assert((registry + active).disjoint(previous));
        vstd::set_lib::lemma_set_disjoint_lens(registry, active);
        vstd::set_lib::lemma_set_disjoint_lens(registry + active, previous);
    }

    /// A switch keeps the places disjoint and neither adds nor loses a key:
    /// as many screens are held after it as before.
    pub proof fn lemma_activate(self, key: ScreenKey)
        requires
            self.wf(),
        ensures
            self.activate(key).wf(),
            self.activate(key).keys() == self.keys(),
            self.activate(key).count() == self.count(),
    {
        assert(self.activate(key).keys() =~= self.keys());
    }

    /// A switch leaves every screen what it was: the screen found under a key
    /// after the switch is the screen that was under that key before.
    pub proof fn lemma_activate_keeps_instances(self, key: ScreenKey, other: ScreenKey)
        requires
            self.wf(),
        ensures
            self.activate(key).instance(other) == self.instance(other),
    {
    }

    /// Whatever registrations and switches happen, in whatever order, no key
    /// is ever in two places at once, and the keys held are exactly those that
    /// were held at the start together with those registered since. The
    /// screens held are as many as those keys; where no new key was
    /// registered, they are as many as at the start.
    pub proof fn law_every_screen_in_one_place(self, ops: Seq<SlotOp>)
        requires
            self.wf(),
            self.admits_all(ops),
        ensures
            self.replay(ops).wf(),
            self.replay(ops).keys() == self.keys() + Self::registered(ops),
            self.replay(ops).count() == self.replay(ops).keys().len(),
            Self::registered(ops).subset_of(self.keys()) ==> self.replay(ops).count()
                == self.count(),
        decreases ops.len(),
    {
        self.lemma_count_is_the_number_of_keys();
        if ops.len() == 0 {
            assert(Self::registered(ops) =~= Set::empty());
            assert(self.keys() + Self::registered(ops) =~= self.keys());
        } else {
            let before = ops.drop_last();
            let op = ops.last();
            let mid = self.replay(before);
            self.law_every_screen_in_one_place(before);
            assert forall|key: ScreenKey| #[trigger]
                Self::registered(ops).contains(key) <==> (Self::registered(before).contains(key)
                    || Self::registers(op, key)) by {
                if Self::registered(before).contains(key) {
                    let i = choose|i: int|
                        0 <= i < before.len() && Self::registers(#[trigger] before[i], key);
                    assert(Self::registers(ops[i], key));
                }
                if Self::registers(op, key) {
                    assert(Self::registers(ops[ops.len() - 1], key));
                }
                if Self::registered(ops).contains(key) {
                    let i = choose|i: int|
                        0 <= i < ops.len() && Self::registers(#[trigger] ops[i], key);
                    if i < before.len() {
                        assert(Self::registers(before[i], key));
                    }
                }
            }
            match op {
                SlotOp::Register { key, screen } => {
                    assert(mid.apply(op).keys() =~= mid.keys().insert(key));
                },
                SlotOp::Switch { key } => {
                    mid.lemma_activate(key);
                },
            }
            assert(self.replay(ops).keys() =~= self.keys() + Self::registered(ops));
        }
        self.replay(ops).lemma_count_is_the_number_of_keys();
        if Self::registered(ops).subset_of(self.keys()) {
            assert(self.keys() + Self::registered(ops) =~= self.keys());
        }
    }

    /// A screen stays the instance it is through any registrations and
    /// switches that do not register its key anew. In particular, a screen
    /// that was active, gave way to others and is active again is the very
    /// instance it was, with the state it had.
    pub proof fn law_switching_keeps_the_instance(self, ops: Seq<SlotOp>, key: ScreenKey)
        requires
            self.wf(),
            self.admits_all(ops),
            !Self::registered(ops).contains(key),
        ensures
            self.replay(ops).instance(key) == self.instance(key),
            Self::slot_key(self.active).contains(key) && Self::slot_key(
                self.replay(ops).active,
            ).contains(key) ==> self.replay(ops).active == self.active,
        decreases ops.len(),
    {
        if ops.len() > 0 {
            let before = ops.drop_last();
            let op = ops.last();
            let mid = self.replay(before);
            assert forall|k: ScreenKey| #[trigger]
                Self::registered(before).contains(k) implies Self::registered(ops).contains(k) by {
                let i = choose|i: int|
                    0 <= i < before.len() && Self::registers(#[trigger] before[i], k);
                assert(Self::registers(ops[i], k));
            }
            self.law_switching_keeps_the_instance(before, key);
            self.law_every_screen_in_one_place(before);
            match op {
                SlotOp::Register { key: registered, screen } => {
                    assert(Self::registers(ops[ops.len() - 1], registered));
                },
                SlotOp::Switch { key: switched } => {
                    mid.lemma_activate_keeps_instances(switched, key);
                },
            }
        }
    }
}

} // verus!
