//! The render context: the fields of a page, as the renderer sees them.

use vstd::prelude::*;

verus! {

/// What a field is, mathematically: its title, and its content where it has
/// one.
pub type FieldView = (Seq<char>, Option<Seq<char>>);

/// The mapping from title to content that a list of fields stands for. A
/// later field replaces an earlier one with the same title.
pub open spec fn mapping(entries: Seq<FieldView>) -> Map<Seq<char>, Option<Seq<char>>>
    decreases entries.len(),
{
    if entries.len() == 0 {
        Map::empty()
    } else {
        mapping(entries.drop_last()).insert(entries.last().0, entries.last().1)
    }
}

/// A named module of a page.
#[derive(Debug)]
pub struct Field {
    title: String,
    content: Option<String>,
}

impl View for Field {
    type V = FieldView;

    closed spec fn view(&self) -> FieldView {
        (
            self.title@,
            match self.content {
                Some(text) => Some(text@),
                None => None,
            },
        )
    }
}

impl Field {
    /// A field with the given title and content.
    pub fn new(title: String, content: Option<String>) -> (field: Field)
        ensures
            field@.0 == title@,
            field@.1 == match content {
                Some(text) => Some(text@),
                None => None,
            },
    {
        Field { title, content }
    }

    /// The title.
    pub fn title(&self) -> (title: &str)
        ensures
            title@ == self@.0,
    {
        self.title.as_str()
    }

    /// The content, where the field has one.
    pub fn content(&self) -> (content: Option<&str>)
        ensures
            match content {
                Some(text) => self@.1 == Some(text@),
                None => self@.1 is None,
            },
    {
        match &self.content {
            Some(text) => Some(text.as_str()),
            None => None,
        }
    }
}

/// The data that one render pass works on: the mapping from title to field,
/// where the page has one.
#[derive(Debug)]
pub struct RenderContext {
    fields: Option<Vec<Field>>,
}

impl View for RenderContext {
    type V = Option<Map<Seq<char>, Option<Seq<char>>>>;

    closed spec fn view(&self) -> Self::V {
        match self.fields {
            Some(list) => Some(mapping(list@.map_values(|field: Field| field@))),
            None => None,
        }
    }
}

impl RenderContext {
    /// A context without a mapping of fields.
    pub fn new() -> (context: RenderContext)
        ensures
            context@ is None,
    {
        RenderContext { fields: None }
    }

    /// A context whose mapping of fields is empty.
    pub fn with_fields() -> (context: RenderContext)
        ensures
            context@ == Some(Map::<Seq<char>, Option<Seq<char>>>::empty()),
    {
        let context = RenderContext { fields: Some(Vec::new()) };
        assert(context.fields->0@.map_values(|field: Field| field@) =~= Seq::empty());
        context
    }

    /// Puts `field` under its title, in place of what stood there. A context
    /// without a mapping gets one.
    pub fn insert(&mut self, field: Field)
        ensures
            final(self)@ == Some(
                match old(self)@ {
                    Some(fields) => fields,
                    None => Map::empty(),
                }.insert(field@.0, field@.1),
            ),
    {
        let ghost entry = field@;
        match &mut self.fields {
            Some(list) => {
                let ghost before = list@.map_values(|field: Field| field@);
                list.push(field);
                assert(list@.map_values(|field: Field| field@) =~= before.push(entry));
                assert(before.push(entry).drop_last() =~= before);
            },
            None => {
                let mut list: Vec<Field> = Vec::new();
                list.push(field);
                let ghost now = list@.map_values(|field: Field| field@);
                assert(now.drop_last() =~= Seq::empty());
                assert(mapping(now.drop_last()) == Map::<Seq<char>, Option<Seq<char>>>::empty());
                self.fields = Some(list);
            },
        }
    }

    /// Whether the context has a mapping of fields.
    pub fn has_fields(&self) -> (present: bool)
        ensures
            present == self@ is Some,
    {
        self.fields.is_some()
    }

    /// The field under `title`, where the mapping has one.
    pub fn field(&self, title: &str) -> (found: Option<&Field>)
        ensures
            match found {
                Some(field) => self@ matches Some(fields) && fields.contains_key(title@)
                    && field@ == (title@, fields[title@]),
                None => self@ matches Some(fields) ==> !fields.contains_key(title@),
            },
    {
        match &self.fields {
            None => None,
            Some(list) => {
                let wanted = title.to_owned();
                let ghost entries = list@.map_values(|field: Field| field@);
                let mut found: Option<&Field> = None;
                let mut i: usize = 0;
                while i < list.len()
                    invariant
                        i <= list.len(),
                        wanted@ == title@,
                        entries == list@.map_values(|field: Field| field@),
                        match found {
                            Some(field) => mapping(entries.take(i as int)).contains_key(title@)
                                && field@ == (title@, mapping(entries.take(i as int))[title@]),
                            None => !mapping(entries.take(i as int)).contains_key(title@),
                        },
                    decreases list.len() - i,
                {
                    proof {
                        assert(entries.take(i + 1).drop_last() =~= entries.take(i as int));
                    }
                    if list[i].title == wanted {
                        found = Some(&list[i]);
                    }
                    i += 1;
                }
                assert(entries.take(i as int) =~= entries);
                found
            },
        }
    }
}

} // verus!
