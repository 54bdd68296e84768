//! Handlers by interface and by tag.

use vstd::prelude::*;

use crate::text::same_text;
use crate::web::tag::StructuredCloneHostObjectTag;

verus! {

/// The handler of one interface.
pub struct HandlerEntry<H> {
    pub interface: &'static str,
    pub tag: StructuredCloneHostObjectTag,
    pub handler: H,
}

/// The tags and handlers of the entries, by the names of their interfaces.
pub open spec fn by_interface<H>(entries: Seq<HandlerEntry<H>>) -> Map<
    Seq<char>,
    (StructuredCloneHostObjectTag, H),
>
    decreases entries.len(),
{
    if entries.len() == 0 {
        Map::empty()
    } else {
        by_interface(entries.drop_last()).insert(
            entries.last().interface@,
            (entries.last().tag, entries.last().handler),
        )
    }
}

/// The names of the interfaces and the handlers of the entries, by their tags.
pub open spec fn by_tag<H>(entries: Seq<HandlerEntry<H>>) -> Map<
    StructuredCloneHostObjectTag,
    (Seq<char>, H),
>
    decreases entries.len(),
{
    if entries.len() == 0 {
        Map::empty()
    } else {
        by_tag(entries.drop_last()).insert(
            entries.last().tag,
            (entries.last().interface@, entries.last().handler),
        )
    }
}

/// Whether no interface and no tag stands in two entries.
pub open spec fn is_unambiguous<H>(entries: Seq<HandlerEntry<H>>) -> bool {
    forall|i: int, j: int|
        0 <= i < j < entries.len() ==> (#[trigger] entries[i]).interface@ != (
        #[trigger] entries[j]).interface@ && entries[i].tag != entries[j].tag
}

proof fn lemma_interface_entry<H>(entries: Seq<HandlerEntry<H>>, index: int)
    requires
        is_unambiguous(entries),
        0 <= index < entries.len(),
    ensures
        by_interface(entries).dom().contains(entries[index].interface@),
        by_interface(entries)[entries[index].interface@] == (
            entries[index].tag,
            entries[index].handler,
        ),
    decreases entries.len(),
{
    if index < entries.len() - 1 {
        lemma_interface_entry(entries.drop_last(), index);
        assert(entries.drop_last()[index] == entries[index]);
    }
}

proof fn lemma_tag_entry<H>(entries: Seq<HandlerEntry<H>>, index: int)
    requires
        is_unambiguous(entries),
        0 <= index < entries.len(),
    ensures
        by_tag(entries).dom().contains(entries[index].tag),
        by_tag(entries)[entries[index].tag] == (entries[index].interface@, entries[index].handler),
    decreases entries.len(),
{
    if index < entries.len() - 1 {
        lemma_tag_entry(entries.drop_last(), index);
        assert(entries.drop_last()[index] == entries[index]);
    }
}

proof fn lemma_has_interface<H>(entries: Seq<HandlerEntry<H>>, interface: Seq<char>)
    ensures
        by_interface(entries).dom().contains(interface) <==> exists|i: int|
            0 <= i < entries.len() && (#[trigger] entries[i]).interface@ == interface,
    decreases entries.len(),
{
    if entries.len() > 0 {
        let others = entries.drop_last();
        lemma_has_interface(others, interface);
        if by_interface(others).dom().contains(interface) {
            let i = choose|i: int|
                0 <= i < others.len() && (#[trigger] others[i]).interface@ == interface;
            assert(entries[i].interface@ == interface);
        }
        if exists|i: int|
            0 <= i < entries.len() && (#[trigger] entries[i]).interface@ == interface {
            let i = choose|i: int|
                0 <= i < entries.len() && (#[trigger] entries[i]).interface@ == interface;
            if i < others.len() {
                assert(others[i].interface@ == interface);
            }
        }
    }
}

proof fn lemma_has_tag<H>(entries: Seq<HandlerEntry<H>>, tag: StructuredCloneHostObjectTag)
    ensures
        by_tag(entries).dom().contains(tag) <==> exists|i: int|
            0 <= i < entries.len() && (#[trigger] entries[i]).tag == tag,
    decreases entries.len(),
{
    if entries.len() > 0 {
        let others = entries.drop_last();
        lemma_has_tag(others, tag);
        if by_tag(others).dom().contains(tag) {
            let i = choose|i: int| 0 <= i < others.len() && (#[trigger] others[i]).tag == tag;
            assert(entries[i].tag == tag);
        }
        if exists|i: int| 0 <= i < entries.len() && (#[trigger] entries[i]).tag == tag {
            let i = choose|i: int| 0 <= i < entries.len() && (#[trigger] entries[i]).tag == tag;
            if i < others.len() {
                assert(others[i].tag == tag);
            }
        }
    }
}

/// Handlers, at most one for each interface and for each tag.
pub struct HandlerTable<H> {
    entries: Vec<HandlerEntry<H>>,
}

impl<H> HandlerTable<H> {
    /// What holds between two calls.
    pub closed spec fn wf(self) -> bool {
        is_unambiguous(self.entries@)
    }

    /// The tags and handlers, by the names of their interfaces.
    pub closed spec fn by_interface(self) -> Map<Seq<char>, (StructuredCloneHostObjectTag, H)> {
        by_interface(self.entries@)
    }

    /// The names of the interfaces and the handlers, by their tags.
    pub closed spec fn by_tag(self) -> Map<StructuredCloneHostObjectTag, (Seq<char>, H)> {
        by_tag(self.entries@)
    }

    /// The two orders hold the same handlers.
    pub proof fn lemma_orders_agree(
        self,
        interface: Seq<char>,
        tag: StructuredCloneHostObjectTag,
        handler: H,
    )
        requires
            self.wf(),
        ensures
            self.by_interface().dom().contains(interface) && self.by_interface()[interface] == (
                tag,
                handler,
            ) <==> self.by_tag().dom().contains(tag) && self.by_tag()[tag] == (interface, handler),
    {
        let entries = self.entries@;
        lemma_has_interface(entries, interface);
        lemma_has_tag(entries, tag);
        if self.by_interface().dom().contains(interface) {
            let i = choose|i: int|
                0 <= i < entries.len() && (#[trigger] entries[i]).interface@ == interface;
            lemma_interface_entry(entries, i);
            lemma_tag_entry(entries, i);
        }
        if self.by_tag().dom().contains(tag) {
            let i = choose|i: int| 0 <= i < entries.len() && (#[trigger] entries[i]).tag == tag;
            lemma_interface_entry(entries, i);
            lemma_tag_entry(entries, i);
        }
    }

    /// A table without handlers.
    pub fn new() -> (table: Self)
        ensures
            table.wf(),
            table.by_interface() == Map::<Seq<char>, (StructuredCloneHostObjectTag, H)>::empty(),
            table.by_tag() == Map::<StructuredCloneHostObjectTag, (Seq<char>, H)>::empty(),
    {
        HandlerTable { entries: Vec::new() }
    }

    /// Adds a handler.
    pub fn register(
        &mut self,
        interface: &'static str,
        tag: StructuredCloneHostObjectTag,
        handler: H,
    )
        requires
            old(self).wf(),
            !old(self).by_interface().dom().contains(interface@),
            !old(self).by_tag().dom().contains(tag),
        ensures
            final(self).wf(),
            final(self).by_interface() == old(self).by_interface().insert(
                interface@,
                (tag, handler),
            ),
            final(self).by_tag() == old(self).by_tag().insert(tag, (interface@, handler)),
    {
        proof {
            lemma_has_interface(self.entries@, interface@);
            lemma_has_tag(self.entries@, tag);
        }
        self.entries.push(HandlerEntry { interface, tag, handler });
        assert(self.entries@.drop_last() == old(self).entries@);
    }

    /// The entry of an interface.
    pub fn find_interface(&self, interface: &str) -> (entry: Option<&HandlerEntry<H>>)
        requires
            self.wf(),
        ensures
            match entry {
                Some(entry) => entry.interface@ == interface@
                    && self.by_interface().dom().contains(interface@)
                    && self.by_interface()[interface@] == (entry.tag, entry.handler),
                None => !self.by_interface().dom().contains(interface@),
            },
    {
        let mut index: usize = 0;
        while index < self.entries.len()
            invariant
                self.wf(),
                index <= self.entries@.len(),
                forall|i: int| 0 <= i < index ==> self.entries@[i].interface@ != interface@,
            decreases self.entries@.len() - index,
        {
            if same_text(self.entries[index].interface, interface) {
                proof {
                    lemma_interface_entry(self.entries@, index as int);
                }
                return Some(&self.entries[index]);
            }
            index = index + 1;
        }
        proof {
            lemma_has_interface(self.entries@, interface@);
        }
        None
    }

    /// The entry of a tag.
    pub fn find_tag(&self, tag: StructuredCloneHostObjectTag) -> (entry: Option<&HandlerEntry<H>>)
        requires
            self.wf(),
        ensures
            match entry {
                Some(entry) => entry.tag == tag && self.by_tag().dom().contains(tag)
                    && self.by_tag()[tag] == (entry.interface@, entry.handler),
                None => !self.by_tag().dom().contains(tag),
            },
    {
        let mut index: usize = 0;
        while index < self.entries.len()
            invariant
                self.wf(),
                index <= self.entries@.len(),
                forall|i: int| 0 <= i < index ==> self.entries@[i].tag != tag,
            decreases self.entries@.len() - index,
        {
            if self.entries[index].tag == tag {
                proof {
                    lemma_tag_entry(self.entries@, index as int);
                }
                return Some(&self.entries[index]);
            }
            index = index + 1;
        }
        proof {
            lemma_has_tag(self.entries@, tag);
        }
        None
    }
}

} // verus!
