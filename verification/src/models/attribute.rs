use vstd::prelude::*;

verus! {

/// One attribute of a stored item, as far as a product depends on it: a
/// string, a number in the table's textual encoding, or a value of any other
/// kind.
#[derive(Debug)]
pub enum AttributeValue {
    /// A string.
    S(String),
    /// A number, held as its decimal text.
    N(String),
    /// A value of a kind that no attribute of a product has.
    Other,
}

/// The mathematical model of an [`AttributeValue`].
pub enum AttributeValueView {
    S(Seq<char>),
    N(Seq<char>),
    Other,
}

impl View for AttributeValue {
    type V = AttributeValueView;

    open spec fn view(&self) -> AttributeValueView {
        match self {
            AttributeValue::S(text) => AttributeValueView::S(text@),
            AttributeValue::N(text) => AttributeValueView::N(text@),
            AttributeValue::Other => AttributeValueView::Other,
        }
    }
}

impl PartialEq for AttributeValue {
    fn eq(&self, other: &AttributeValue) -> (equal: bool) {
        match (self, other) {
            (AttributeValue::S(left), AttributeValue::S(right)) => *left == *right,
            (AttributeValue::N(left), AttributeValue::N(right)) => *left == *right,
            (AttributeValue::Other, AttributeValue::Other) => true,
            _ => false,
        }
    }
}

impl vstd::std_specs::cmp::PartialEqSpecImpl for AttributeValue {
    open spec fn obeys_eq_spec() -> bool {
        true
    }

    /// Two attributes are equal if they are of one kind and hold one text.
    open spec fn eq_spec(&self, other: &AttributeValue) -> bool {
        self@ == other@
    }
}

impl Eq for AttributeValue {

}

impl Clone for AttributeValue {
    fn clone(&self) -> (copy: AttributeValue)
        ensures
            copy == *self,
    {
        match self {
            AttributeValue::S(text) => AttributeValue::S(text.clone()),
            AttributeValue::N(text) => AttributeValue::N(text.clone()),
            AttributeValue::Other => AttributeValue::Other,
        }
    }
}

impl AttributeValue {
    /// The text of a string attribute; of any other attribute, the attribute
    /// itself as the error.
    pub fn as_s(&self) -> (r: Result<&String, &AttributeValue>)
        ensures
            match r {
                Ok(text) => self@ == AttributeValueView::S(text@),
                Err(other) => !(self@ is S) && other@ == self@,
            },
    {
        match self {
            AttributeValue::S(text) => Ok(text),
            _ => Err(self),
        }
    }

    /// The decimal text of a number attribute; of any other attribute, the
    /// attribute itself as the error.
    pub fn as_n(&self) -> (r: Result<&String, &AttributeValue>)
        ensures
            match r {
                Ok(text) => self@ == AttributeValueView::N(text@),
                Err(other) => !(self@ is N) && other@ == self@,
            },
    {
        match self {
            AttributeValue::N(text) => Ok(text),
            _ => Err(self),
        }
    }
}

/// The model of an item: its attributes by name.
pub type ItemView = Map<Seq<char>, AttributeValueView>;

/// The map that a list of named attributes stands for. Of two entries with
/// one name the later one counts.
pub open spec fn entries_map(entries: Seq<(Seq<char>, AttributeValueView)>) -> ItemView
    decreases entries.len(),
{
    if entries.len() == 0 {
        Map::empty()
    } else {
        entries_map(entries.drop_last()).insert(entries.last().0, entries.last().1)
    }
}

/// The models of the entries of a list, in the list's order.
pub open spec fn entry_views(entries: Seq<(String, AttributeValue)>) -> Seq<
    (Seq<char>, AttributeValueView),
> {
    Seq::new(entries.len(), |i: int| (entries[i].0@, entries[i].1@))
}

/// Whether no name occurs twice in a list of named attributes.
pub open spec fn distinct_names(entries: Seq<(Seq<char>, AttributeValueView)>) -> bool {
    forall|i: int, j: int| 0 <= i < j < entries.len() ==> entries[i].0 != entries[j].0
}

/// A list in which no name occurs twice stays so without its last entry.
pub proof fn lemma_distinct_front(entries: Seq<(Seq<char>, AttributeValueView)>)
    requires
        distinct_names(entries),
        entries.len() > 0,
    ensures
        distinct_names(entries.drop_last()),
{
    let front = entries.drop_last();
    assert forall|i: int, j: int| 0 <= i < j < front.len() implies front[i].0 != front[j].0 by {
        assert(entries[i].0 != entries[j].0);
    }
}

/// A name is in the map of a list exactly if some entry of the list has it.
pub proof fn lemma_entries_map_dom(entries: Seq<(Seq<char>, AttributeValueView)>, name: Seq<char>)
    ensures
        entries_map(entries).contains_key(name) <==> exists|i: int|
            0 <= i < entries.len() && #[trigger] entries[i].0 == name,
    decreases entries.len(),
{
    if entries.len() > 0 {
        let front = entries.drop_last();
        lemma_entries_map_dom(front, name);
        if entries_map(entries).contains_key(name) {
            if entries.last().0 == name {
                assert(entries[entries.len() - 1].0 == name);
            } else {
                let i = choose|i: int| 0 <= i < front.len() && #[trigger] front[i].0 == name;
                assert(entries[i].0 == name);
            }
        }
        if exists|i: int| 0 <= i < entries.len() && #[trigger] entries[i].0 == name {
            let i = choose|i: int| 0 <= i < entries.len() && #[trigger] entries[i].0 == name;
            if i < front.len() {
                assert(front[i].0 == name);
            }
        }
    }
}

/// Where no name occurs twice, the map of a list gives under each entry's
/// name that entry's value.
pub proof fn lemma_entries_map_value(entries: Seq<(Seq<char>, AttributeValueView)>, at: int)
    requires
        distinct_names(entries),
        0 <= at < entries.len(),
    ensures
        entries_map(entries).contains_key(entries[at].0),
        entries_map(entries)[entries[at].0] == entries[at].1,
    decreases entries.len(),
{
    let front = entries.drop_last();
    if at < entries.len() - 1 {
        lemma_distinct_front(entries);
        lemma_entries_map_value(front, at);
        assert(front[at] == entries[at]);
        assert(entries[at].0 != entries[entries.len() - 1].0);
    }
}

/// Where no name occurs twice, the map of a list has as many names as the
/// list has entries.
pub proof fn lemma_entries_map_len(entries: Seq<(Seq<char>, AttributeValueView)>)
    requires
        distinct_names(entries),
    ensures
        entries_map(entries).dom().finite(),
        entries_map(entries).dom().len() == entries.len(),
    decreases entries.len(),
{
    if entries.len() > 0 {
        let front = entries.drop_last();
        let last = entries.last();
        lemma_distinct_front(entries);
        lemma_entries_map_len(front);
        lemma_entries_map_dom(front, last.0);
        if entries_map(front).contains_key(last.0) {
            let i = choose|i: int| 0 <= i < front.len() && #[trigger] front[i].0 == last.0;
            assert(entries[i].0 != entries[entries.len() - 1].0);
        }
    }
}

/// Giving an entry of a list another value sets that entry's name to the value
/// in the list's map, and brings no name in twice.
pub proof fn lemma_entries_map_update(
    entries: Seq<(Seq<char>, AttributeValueView)>,
    at: int,
    value: AttributeValueView,
)
    requires
        distinct_names(entries),
        0 <= at < entries.len(),
    ensures
        distinct_names(entries.update(at, (entries[at].0, value))),
        entries_map(entries.update(at, (entries[at].0, value))) == entries_map(entries).insert(
            entries[at].0,
            value,
        ),
    decreases entries.len(),
{
    let name = entries[at].0;
    let updated = entries.update(at, (name, value));
    let front = entries.drop_last();
    let last = entries.last();
    assert(distinct_names(updated)) by {
        assert forall|i: int, j: int| 0 <= i < j < updated.len() implies updated[i].0
            != updated[j].0 by {
            assert(entries[i].0 != entries[j].0);
        }
    }
    if at == entries.len() - 1 {
        assert(updated.drop_last() =~= front);
        assert(entries_map(updated) =~= entries_map(entries).insert(name, value));
    } else {
        lemma_distinct_front(entries);
        lemma_entries_map_update(front, at, value);
        assert(updated.drop_last() =~= front.update(at, (name, value)));
        assert(updated.last() == last);
        assert(entries[at].0 != entries[entries.len() - 1].0);
        assert(entries_map(updated) =~= entries_map(entries).insert(name, value));
    }
}

/// A stored item: attributes by name, no name twice.
#[derive(Debug)]
pub struct Item {
    entries: Vec<(String, AttributeValue)>,
}

impl View for Item {
    type V = ItemView;

    closed spec fn view(&self) -> ItemView {
        entries_map(entry_views(self.entries@))
    }
}

impl Item {
    #[verifier::type_invariant]
    spec fn well_formed(&self) -> bool {
        distinct_names(entry_views(self.entries@))
    }

    /// The item without attributes.
    pub fn new() -> (item: Item)
        ensures
            item@ == Map::<Seq<char>, AttributeValueView>::empty(),
    {
        Item { entries: Vec::new() }
    }

    /// The value of the attribute `name`, if the item has one.
    pub fn get(&self, name: &str) -> (found: Option<&AttributeValue>)
        ensures
            match found {
                Some(value) => self@.contains_key(name@) && self@[name@] == value@,
                None => !self@.contains_key(name@),
            },
    {
        proof {
            use_type_invariant(self);
        }
        let ghost views = entry_views(self.entries@);
        let wanted = name.to_owned();
        let mut i: usize = 0;
        while i < self.entries.len()
            invariant
                i <= self.entries.len(),
                wanted@ == name@,
                views == entry_views(self.entries@),
                distinct_names(views),
                forall|j: int| 0 <= j < i ==> (#[trigger] views[j]).0 != name@,
            decreases self.entries.len() - i,
        {
            if self.entries[i].0 == wanted {
                proof {
                    lemma_entries_map_value(views, i as int);
                }
                return Some(&self.entries[i].1);
            }
            i += 1;
        }
        proof {
            lemma_entries_map_dom(views, name@);
        }
        None
    }

    /// Sets the attribute `name` to `value`, in place of the value it had, if
    /// it had one.
    pub fn insert(&mut self, name: String, value: AttributeValue)
        ensures
            final(self)@ == old(self)@.insert(name@, value@),
    {
        let mut taken = Item::new();
        core::mem::swap(self, &mut taken);
        proof {
            use_type_invariant(&taken);
        }
        let mut entries = taken.entries;
        let ghost views = entry_views(entries@);
        let ghost entry = (name@, value@);
        let mut i: usize = 0;
        while i < entries.len()
            invariant
                i <= entries.len(),
                views == entry_views(entries@),
                forall|j: int| 0 <= j < i ==> (#[trigger] views[j]).0 != name@,
            ensures
                i < entries.len() ==> views[i as int].0 == name@,
            decreases entries.len() - i,
        {
            if entries[i].0 == name {
                break ;
            }
            i += 1;
        }
        if i < entries.len() {
            proof {
                lemma_entries_map_update(views, i as int, value@);
            }
            entries.set(i, (name, value));
            assert(entry_views(entries@) =~= views.update(i as int, entry));
        } else {
            entries.push((name, value));
            assert(entry_views(entries@) =~= views.push(entry));
            assert(views.push(entry).drop_last() =~= views);
        }
        *self = Item { entries };
    }

    /// The item that a list of named attributes stands for. Of two entries
    /// with one name the later one counts.
    pub fn from_entries(entries: Vec<(String, AttributeValue)>) -> (item: Item)
        ensures
            item@ == entries_map(entry_views(entries@)),
    {
        let ghost all = entry_views(entries@);
        let mut item = Item::new();
        for entry in it: entries
            invariant
                all == entry_views(it.seq()),
                item@ == entries_map(all.take(it.index() as int)),
        {
            let ghost at = it.index() as int;
            assert(all.take(at + 1).drop_last() =~= all.take(at));
            item.insert(entry.0, entry.1);
        }
        assert(all.take(all.len() as int) =~= all);
        item
    }

    /// The attributes of the item as a list, each name once.
    pub fn into_entries(self) -> (entries: Vec<(String, AttributeValue)>)
        ensures
            distinct_names(entry_views(entries@)),
            entries_map(entry_views(entries@)) == self@,
    {
        proof {
            use_type_invariant(&self);
        }
        self.entries
    }
}

impl PartialEq for Item {
    fn eq(&self, other: &Item) -> (equal: bool) {
        proof {
            use_type_invariant(self);
            use_type_invariant(other);
            lemma_entries_map_len(entry_views(self.entries@));
            lemma_entries_map_len(entry_views(other.entries@));
        }
        if self.entries.len() != other.entries.len() {
            return false;
        }
        let ghost views = entry_views(self.entries@);
        let mut i: usize = 0;
        while i < self.entries.len()
            invariant
                i <= self.entries.len(),
                views == entry_views(self.entries@),
                distinct_names(views),
                self@ == entries_map(views),
                forall|j: int|
                    0 <= j < i ==> other@.contains_key((#[trigger] views[j]).0) && other@[views[j].0]
                        == views[j].1,
            decreases self.entries.len() - i,
        {
            proof {
                lemma_entries_map_value(views, i as int);
            }
            match other.get(self.entries[i].0.as_str()) {
                Some(value) => {
                    if !(*value == self.entries[i].1) {
                        return false;
                    }
                },
                None => {
                    return false;
                },
            }
            i += 1;
        }
        proof {
            assert forall|name: Seq<char>| #[trigger]
                self@.dom().contains(name) implies other@.dom().contains(name) && other@[name]
                == self@[name] by {
                lemma_entries_map_dom(views, name);
                let j = choose|j: int| 0 <= j < views.len() && #[trigger] views[j].0 == name;
                lemma_entries_map_value(views, j);
            }
            assert(self@.dom().subset_of(other@.dom()));
            vstd::set_lib::lemma_subset_equality(self@.dom(), other@.dom());
            assert(self@ =~= other@);
        }
        true
    }
}

impl vstd::std_specs::cmp::PartialEqSpecImpl for Item {
    open spec fn obeys_eq_spec() -> bool {
        true
    }

    /// Two items are equal if they hold the same attributes, in whatever
    /// order these were put in.
    open spec fn eq_spec(&self, other: &Item) -> bool {
        self@ == other@
    }
}

impl Eq for Item {

}

impl Clone for Item {
    fn clone(&self) -> (copy: Item)
        ensures
            copy@ == self@,
    {
        proof {
            use_type_invariant(self);
        }
        let mut entries: Vec<(String, AttributeValue)> = Vec::new();
        let mut i: usize = 0;
        while i < self.entries.len()
            invariant
                i <= self.entries.len(),
                entries@ == self.entries@.take(i as int),
            decreases self.entries.len() - i,
        {
            let name = self.entries[i].0.clone();
            let value = self.entries[i].1.clone();
            entries.push((name, value));
            assert(entries@ =~= self.entries@.take(i + 1));
            i += 1;
        }
        assert(entries@ =~= self.entries@);
        Item { entries }
    }
}

} // verus!
