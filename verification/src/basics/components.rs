use vstd::prelude::*;
use crate::basics::Component;
use crate::basics::ComponentKind;

verus! {

/// A behaviour as it hangs on its owner: the behaviour itself, which the
/// caller supplies, and the kind it is of.
pub struct Attachment<C> {
    pub kind: ComponentKind,
    pub component: C,
}

/// The behaviours attached to one object, in the order of attachment. The
/// object owns them; they hold no reference back to it.
pub struct Components<C> {
    pub items: Vec<Attachment<C>>,
}

/// What a sweep through the attachments takes away.
enum Sweep {
    /// Every behaviour of the type of the given kind.
    Type(ComponentKind),
    /// Every force that was meant for one tick.
    Decayed,
}

impl Sweep {
    spec fn takes(self, kind: ComponentKind) -> bool {
        match self {
            Sweep::Type(of) => kind.same_type(of),
            Sweep::Decayed => kind.decays(),
        }
    }

    fn hits(&self, kind: &ComponentKind) -> (hit: bool)
        ensures
            hit == self.takes(*kind),
    {
        match self {
            Sweep::Type(of) => kind.is_type(of),
            Sweep::Decayed => kind.is_decaying(),
        }
    }
}

impl<C> Components<C> {
    /// The kinds of the attached behaviours, in order.
    pub open spec fn kinds(self) -> Seq<ComponentKind> {
        self.items@.map_values(|a: Attachment<C>| a.kind)
    }

    /// No behaviours.
    pub fn new() -> (components: Components<C>)
        ensures
            components.items@ == Seq::<Attachment<C>>::empty(),
    {
        Components { items: Vec::new() }
    }

    /// Attaches a behaviour behind those that are there.
    pub fn add_component(&mut self, kind: ComponentKind, component: C)
        ensures
            final(self).items@ == old(self).items@.push(Attachment { kind, component }),
    {
        self.items.push(Attachment { kind, component });
    }

    /// Detaches every behaviour of the type of `kind` and keeps the others in
    /// their order.
    pub fn remove_component(&mut self, kind: ComponentKind)
        ensures
            final(self).items@ == old(self).items@.filter(|a: Attachment<C>| !a.kind.same_type(kind)),
    {
        let ghost before = self.items@;
        sweep(&mut self.items, Sweep::Type(kind));
        assert(before.filter(|a: Attachment<C>| !Sweep::Type(kind).takes(a.kind)) == before.filter(
            |a: Attachment<C>| !a.kind.same_type(kind),
        )) by {
            lemma_filter_same(
                before,
                |a: Attachment<C>| !Sweep::Type(kind).takes(a.kind),
                |a: Attachment<C>| !a.kind.same_type(kind),
            );
        }
    }

    /// Detaches every force that was meant for one tick and keeps the other
    /// behaviours in their order.
    pub fn clear_decayed_forces(&mut self)
        ensures
            final(self).items@ == old(self).items@.filter(|a: Attachment<C>| !a.kind.decays()),
    {
        let ghost before = self.items@;
        sweep(&mut self.items, Sweep::Decayed);
        assert(before.filter(|a: Attachment<C>| !Sweep::Decayed.takes(a.kind)) == before.filter(
            |a: Attachment<C>| !a.kind.decays(),
        )) by {
            lemma_filter_same(
                before,
                |a: Attachment<C>| !Sweep::Decayed.takes(a.kind),
                |a: Attachment<C>| !a.kind.decays(),
            );
        }
    }
}

/// Two tests that agree on every value keep the same elements.
proof fn lemma_filter_same<A>(s: Seq<A>, p: spec_fn(A) -> bool, q: spec_fn(A) -> bool)
    requires
        forall|a: A| #[trigger] p(a) == q(a),
    ensures
        s.filter(p) == s.filter(q),
    decreases s.len(),
{
    reveal(Seq::filter);
    if s.len() > 0 {
        lemma_filter_same(s.drop_last(), p, q);
    }
}

/// Takes out of `items` what the sweep takes and keeps the rest in order.
fn sweep<C>(items: &mut Vec<Attachment<C>>, what: Sweep)
    ensures
        final(items)@ == old(items)@.filter(|a: Attachment<C>| !what.takes(a.kind)),
{
    let ghost before = items@;
    let ghost keep = |a: Attachment<C>| !what.takes(a.kind);
    let ghost mut seen: int = 0;
    let mut i: usize = 0;
    proof {
        reveal(Seq::filter);
        assert(before.take(0).filter(keep) =~= items@.take(0));
    }
    while i < items.len()
        invariant
            0 <= i <= items@.len(),
            i <= seen <= before.len(),
            keep == |a: Attachment<C>| !what.takes(a.kind),
            items@.take(i as int) == before.take(seen).filter(keep),
            items@.skip(i as int) == before.skip(seen),
        decreases items@.len() - i,
    {
        proof {
            reveal(Seq::filter);
            assert(items@.skip(i as int).len() == items@.len() - i);
            assert(before.skip(seen).len() == before.len() - seen);
            assert(items@[i as int] == items@.skip(i as int)[0]);
            assert(before[seen] == before.skip(seen)[0]);
            assert(before.take(seen + 1).drop_last() =~= before.take(seen));
            assert(before.take(seen + 1).last() == before[seen]);
        }
        if what.hits(&items[i].kind) {
            let ghost old_items = items@;
            items.remove(i);
            proof {
                assert(items@.take(i as int) =~= old_items.take(i as int));
                assert(items@.skip(i as int) =~= old_items.skip(i as int).skip(1));
                assert(before.skip(seen + 1) =~= before.skip(seen).skip(1));
                seen = seen + 1;
            }
        } else {
            proof {
                assert(items@.take(i as int + 1) =~= items@.take(i as int).push(items@[i as int]));
                assert(items@.skip(i as int + 1) =~= items@.skip(i as int).skip(1));
                assert(before.skip(seen + 1) =~= before.skip(seen).skip(1));
                seen = seen + 1;
            }
            i += 1;
        }
    }
    proof {
        assert(items@.take(i as int) =~= items@);
        assert(before.skip(seen).len() == 0);
        assert(before.take(seen) =~= before);
    }
}

/// Runs every behaviour once on the object that owns them, in the order of
/// attachment. The behaviours may change themselves and the object; which
/// behaviours are attached, and in what order, stays as it was.
///
/// The object goes through one state for each behaviour. Each behaviour's
/// turn is a call of its `update`: on the behaviour as it was before and on
/// the object as the turn before left it, and it leaves the behaviour as it is
/// in the end and the object as the next turn finds it. What a call makes of
/// the two is for the behaviour to say.
pub fn update_components<T, C: Component<T>>(object: &mut T, components: &mut Components<C>)
    ensures
        final(components).kinds() == old(components).kinds(),
        exists|states: Seq<T>|
            {
                &&& #[trigger] states.len() == old(components).items@.len() + 1
                &&& states[0] == *old(object)
                &&& states[old(components).items@.len() as int] == *final(object)
                &&& forall|j: int| #[trigger]
                    is_turn(j, old(components).items@.len() as int) ==> exists|behaviour: &mut C, owner: &mut T|
                        {
                            &&& *behaviour == old(components).items@[j].component
                            &&& *final(behaviour) == final(components).items@[j].component
                            &&& *owner == states[j]
                            &&& *final(owner) == states[j + 1]
                            &&& call_ensures(C::update, (behaviour, owner), ())
                        }
            },
{
    let ghost mut states: Seq<T> = seq![*object];
    let n: usize = components.items.len();
    let mut i: usize = 0;
    while i < n
        invariant
            i <= n,
            n == components.items@.len(),
            n == old(components).items@.len(),
            states.len() == i + 1,
            states[0] == *old(object),
            states[i as int] == *object,
            forall|j: int| i <= j < n ==> components.items@[j] == old(components).items@[j],
            forall|j: int| 0 <= j < n ==> (#[trigger] components.items@[j]).kind == old(components).items@[j].kind,
            forall|j: int| #[trigger]
                is_turn(j, i as int) ==> exists|behaviour: &mut C, owner: &mut T|
                    {
                        &&& *behaviour == old(components).items@[j].component
                        &&& *final(behaviour) == components.items@[j].component
                        &&& *owner == states[j]
                        &&& *final(owner) == states[j + 1]
                        &&& call_ensures(C::update, (behaviour, owner), ())
                    },
        decreases n - i,
    {
        let ghost earlier = states;
        let ghost done = components.items@;
        let ghost turn = i as int;
        let attachment = &mut components.items[i];
        attachment.component.update(object);
        proof {
            states = states.push(*object);
            assert forall|j: int| #[trigger] is_turn(j, turn + 1) implies exists|behaviour: &mut C, owner: &mut T|
                {
                    &&& *behaviour == old(components).items@[j].component
                    &&& *final(behaviour) == components.items@[j].component
                    &&& *owner == states[j]
                    &&& *final(owner) == states[j + 1]
                    &&& call_ensures(C::update, (behaviour, owner), ())
                } by {
                if j < turn {
                    assert(is_turn(j, turn));
                    assert(earlier[j] == states[j] && earlier[j + 1] == states[j + 1]);
                    assert(done[j] == components.items@[j]);
                }
            }
        }
        i += 1;
    }
    proof {
        assert(states.len() == old(components).items@.len() + 1);
        assert(components.items@.map_values(|a: Attachment<C>| a.kind) =~= old(components).items@.map_values(
            |a: Attachment<C>| a.kind,
        ));
    }
}

/// Tells every behaviour of `me` that `me` is in contact with `other`, in the
/// order of attachment. Which behaviours are attached stays as it was.
///
/// The two objects go through one state for each behaviour. Each behaviour's
/// turn is a call of its `on_collide`: on the behaviour as it was before and
/// on the objects as the turn before left them, and it leaves the behaviour as
/// it is in the end and the objects as the next turn finds them. What a call
/// makes of the three is for the behaviour to say.
pub fn collide_components<T, C: Component<T>>(me: &mut T, other: &mut T, components: &mut Components<C>)
    ensures
        final(components).kinds() == old(components).kinds(),
        exists|states: Seq<(T, T)>|
            {
                &&& #[trigger] states.len() == old(components).items@.len() + 1
                &&& states[0] == (*old(me), *old(other))
                &&& states[old(components).items@.len() as int] == (*final(me), *final(other))
                &&& forall|j: int| #[trigger]
                    is_turn(j, old(components).items@.len() as int) ==> exists|
                        behaviour: &mut C,
                        owner: &mut T,
                        partner: &mut T,
                    |
                        {
                            &&& *behaviour == old(components).items@[j].component
                            &&& *final(behaviour) == final(components).items@[j].component
                            &&& (*owner, *partner) == states[j]
                            &&& (*final(owner), *final(partner)) == states[j + 1]
                            &&& call_ensures(C::on_collide, (behaviour, owner, partner), ())
                        }
            },
{
    let ghost mut states: Seq<(T, T)> = seq![(*me, *other)];
    let n: usize = components.items.len();
    let mut i: usize = 0;
    while i < n
        invariant
            i <= n,
            n == components.items@.len(),
            n == old(components).items@.len(),
            states.len() == i + 1,
            states[0] == (*old(me), *old(other)),
            states[i as int] == (*me, *other),
            forall|j: int| i <= j < n ==> components.items@[j] == old(components).items@[j],
            forall|j: int| 0 <= j < n ==> (#[trigger] components.items@[j]).kind == old(components).items@[j].kind,
            forall|j: int| #[trigger]
                is_turn(j, i as int) ==> exists|behaviour: &mut C, owner: &mut T, partner: &mut T|
                    {
                        &&& *behaviour == old(components).items@[j].component
                        &&& *final(behaviour) == components.items@[j].component
                        &&& (*owner, *partner) == states[j]
                        &&& (*final(owner), *final(partner)) == states[j + 1]
                        &&& call_ensures(C::on_collide, (behaviour, owner, partner), ())
                    },
        decreases n - i,
    {
        let ghost earlier = states;
        let ghost done = components.items@;
        let ghost turn = i as int;
        let attachment = &mut components.items[i];
        attachment.component.on_collide(me, other);
        proof {
            states = states.push((*me, *other));
            assert forall|j: int| #[trigger] is_turn(j, turn + 1) implies exists|
                behaviour: &mut C,
                owner: &mut T,
                partner: &mut T,
            |
                {
                    &&& *behaviour == old(components).items@[j].component
                    &&& *final(behaviour) == components.items@[j].component
                    &&& (*owner, *partner) == states[j]
                    &&& (*final(owner), *final(partner)) == states[j + 1]
                    &&& call_ensures(C::on_collide, (behaviour, owner, partner), ())
                } by {
                if j < turn {
                    assert(is_turn(j, turn));
                    assert(earlier[j] == states[j] && earlier[j + 1] == states[j + 1]);
                    assert(done[j] == components.items@[j]);
                }
            }
        }
        i += 1;
    }
    proof {
        assert(states.len() == old(components).items@.len() + 1);
        assert(components.items@.map_values(|a: Attachment<C>| a.kind) =~= old(components).items@.map_values(
            |a: Attachment<C>| a.kind,
        ));
    }
}

/// Whether `j` is the turn of one of `count` behaviours, counted from zero in
/// the order of attachment.
pub open spec fn is_turn(j: int, count: int) -> bool {
    0 <= j < count
}

} // verus!
