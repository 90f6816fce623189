//! The entities of a feed and their constructors.
//!
//! Every entity is a plain record with public fields: a parser fills them in after
//! construction and a serializer reads them back. Each has a view, a record of the same
//! shape over `Seq<char>` and `Seq`, and every constructor says which view it returns.

use crate::util::{is_uuid_text, utc_now, uuid_gen};
use chrono::NaiveDateTime;
use vstd::prelude::*;

verus! {

/// The width an [`Image`] is given when it is made, in pixels.
pub const DEFAULT_IMAGE_WIDTH: u32 = 88;

/// The height an [`Image`] is given when it is made, in pixels.
pub const DEFAULT_IMAGE_HEIGHT: u32 = 31;

/// What a [`Link`] holds.
pub struct LinkView {
    pub href: Seq<char>,
    pub rel: Option<Seq<char>>,
    pub media_type: Option<Seq<char>>,
    pub hreflang: Option<Seq<char>>,
    pub title: Option<Seq<char>>,
    pub length: Option<u64>,
}

impl LinkView {
    /// The link to `href` with nothing else said about it.
    pub open spec fn new(href: Seq<char>) -> LinkView {
        LinkView { href, rel: None, media_type: None, hreflang: None, title: None, length: None }
    }
}

/// A link to a resource that belongs with a feed, an entry or an image.
#[derive(Debug)]
pub struct Link {
    /// The URI of the resource, typically a Web page.
    pub href: String,
    /// The relation of the resource to what links to it.
    pub rel: Option<String>,
    /// The media type of the resource.
    pub media_type: Option<String>,
    /// The language of the resource.
    pub hreflang: Option<String>,
    /// A description of the link for a reader.
    pub title: Option<String>,
    /// The size of the resource, in bytes.
    pub length: Option<u64>,
}

impl View for Link {
    type V = LinkView;

    open spec fn view(&self) -> LinkView {
        LinkView {
            href: self.href@,
            rel: self.rel.deep_view(),
            media_type: self.media_type.deep_view(),
            hreflang: self.hreflang.deep_view(),
            title: self.title.deep_view(),
            length: self.length,
        }
    }
}

impl DeepView for Link {
    type V = LinkView;

    open spec fn deep_view(&self) -> LinkView {
        self@
    }
}

impl Link {
    /// A link to `href`. The text is taken as it is: whether it is a URI is left to the caller.
    pub fn new(href: String) -> (link: Link)
        ensures
            link@ == LinkView::new(href@),
    {
        Link { href, rel: None, media_type: None, hreflang: None, title: None, length: None }
    }
}

/// What a [`Person`] holds.
pub struct PersonView {
    pub name: Seq<char>,
    pub uri: Option<Seq<char>>,
    pub email: Option<Seq<char>>,
}

impl PersonView {
    /// The person known by `name` alone.
    pub open spec fn new(name: Seq<char>) -> PersonView {
        PersonView { name, uri: None, email: None }
    }
}

/// An author or a contributor.
#[derive(Debug)]
pub struct Person {
    /// The name to show for the person.
    pub name: String,
    /// The person's home page.
    pub uri: Option<String>,
    /// The person's e-mail address.
    pub email: Option<String>,
}

impl View for Person {
    type V = PersonView;

    open spec fn view(&self) -> PersonView {
        PersonView { name: self.name@, uri: self.uri.deep_view(), email: self.email.deep_view() }
    }
}

impl DeepView for Person {
    type V = PersonView;

    open spec fn deep_view(&self) -> PersonView {
        self@
    }
}

impl Person {
    /// The person known by `name` alone.
    ///
    /// A person ought to have a name, but none is asked for here: the empty name is
    /// taken like any other, and it is the parser that answers for what it passes in.
    pub fn new(name: String) -> (person: Person)
        ensures
            person@ == PersonView::new(name@),
    {
        Person { name, uri: None, email: None }
    }
}

/// What a [`Category`] holds.
pub struct CategoryView {
    pub term: Seq<char>,
    pub scheme: Option<Seq<char>>,
    pub label: Option<Seq<char>>,
}

impl CategoryView {
    /// The category `term`, with no scheme and no label.
    pub open spec fn new(term: Seq<char>) -> CategoryView {
        CategoryView { term, scheme: None, label: None }
    }
}

/// A category that a feed or an entry is filed under.
#[derive(Debug)]
pub struct Category {
    /// The tag itself, as a program reads it.
    pub term: String,
    /// The URI of the scheme the tag is taken from.
    pub scheme: Option<String>,
    /// The tag as a reader should see it.
    pub label: Option<String>,
}

impl View for Category {
    type V = CategoryView;

    open spec fn view(&self) -> CategoryView {
        CategoryView {
            term: self.term@,
            scheme: self.scheme.deep_view(),
            label: self.label.deep_view(),
        }
    }
}

impl DeepView for Category {
    type V = CategoryView;

    open spec fn deep_view(&self) -> CategoryView {
        self@
    }
}

impl Category {
    /// The category `term`, with no scheme and no label. The term is taken as it is.
    pub fn new(term: String) -> (category: Category)
        ensures
            category@ == CategoryView::new(term@),
    {
        Category { term, scheme: None, label: None }
    }
}

/// What a [`Content`] holds.
pub struct ContentView {
    pub content_type: Option<Seq<char>>,
    pub src: Option<Seq<char>>,
    pub inline: Option<Seq<char>>,
}

impl ContentView {
    /// The content of which nothing is known yet.
    pub open spec fn new() -> ContentView {
        ContentView { content_type: None, src: None, inline: None }
    }
}

/// The body of an entry: carried inline, or found at a URI.
///
/// Both `src` and `inline` may be present at once. Which of them a consumer prefers is
/// its own business; the model keeps both.
#[derive(Debug)]
pub struct Content {
    /// The kind of content: `text`, `html`, `xhtml` or a media type.
    pub content_type: Option<String>,
    /// The URI at which the content is found.
    pub src: Option<String>,
    /// The content itself.
    pub inline: Option<String>,
}

impl View for Content {
    type V = ContentView;

    open spec fn view(&self) -> ContentView {
        ContentView {
            content_type: self.content_type.deep_view(),
            src: self.src.deep_view(),
            inline: self.inline.deep_view(),
        }
    }
}

impl DeepView for Content {
    type V = ContentView;

    open spec fn deep_view(&self) -> ContentView {
        self@
    }
}

impl Content {
    /// Content of which nothing is known yet.
    pub fn new() -> (content: Content)
        ensures
            content@ == ContentView::new(),
    {
        Content { content_type: None, src: None, inline: None }
    }
}

/// What a [`Generator`] holds.
pub struct GeneratorView {
    pub uri: Option<Seq<char>>,
    pub version: Option<Seq<char>>,
    pub inline: Option<Seq<char>>,
}

impl GeneratorView {
    /// The generator of which nothing is known yet.
    pub open spec fn new() -> GeneratorView {
        GeneratorView { uri: None, version: None, inline: None }
    }
}

/// The software that wrote a feed.
#[derive(Debug)]
pub struct Generator {
    /// Where the software is found.
    pub uri: Option<String>,
    /// Its version.
    pub version: Option<String>,
    /// Its name, or whatever else the feed says of it.
    pub inline: Option<String>,
}

impl View for Generator {
    type V = GeneratorView;

    open spec fn view(&self) -> GeneratorView {
        GeneratorView {
            uri: self.uri.deep_view(),
            version: self.version.deep_view(),
            inline: self.inline.deep_view(),
        }
    }
}

impl DeepView for Generator {
    type V = GeneratorView;

    open spec fn deep_view(&self) -> GeneratorView {
        self@
    }
}

impl Generator {
    /// A generator of which nothing is known yet.
    pub fn new() -> (generator: Generator)
        ensures
            generator@ == GeneratorView::new(),
    {
        Generator { uri: None, version: None, inline: None }
    }
}

/// What an [`Image`] holds.
pub struct ImageView {
    pub url: Seq<char>,
    pub title: Seq<char>,
    pub link: LinkView,
    pub width: u32,
    pub height: u32,
    pub description: Option<Seq<char>>,
}

impl ImageView {
    /// The image at `url`, of the default size and without a description.
    pub open spec fn new(url: Seq<char>, title: Seq<char>, link: LinkView) -> ImageView {
        ImageView {
            url,
            title,
            link,
            width: DEFAULT_IMAGE_WIDTH,
            height: DEFAULT_IMAGE_HEIGHT,
            description: None,
        }
    }
}

/// An image that stands for a feed.
///
/// The size is set once, when the image is made, and the model never touches it again.
/// It is not held under any maximum either: a caller that wants one enforces it.
#[derive(Debug)]
pub struct Image {
    /// Where the image is found.
    pub url: String,
    /// The text to show in place of the image.
    pub title: String,
    /// Where a click on the image leads.
    pub link: Link,
    /// The width in pixels.
    pub width: u32,
    /// The height in pixels.
    pub height: u32,
    /// The text to show for the link around the image.
    pub description: Option<String>,
}

impl View for Image {
    type V = ImageView;

    open spec fn view(&self) -> ImageView {
        ImageView {
            url: self.url@,
            title: self.title@,
            link: self.link@,
            width: self.width,
            height: self.height,
            description: self.description.deep_view(),
        }
    }
}

impl DeepView for Image {
    type V = ImageView;

    open spec fn deep_view(&self) -> ImageView {
        self@
    }
}

impl Image {
    /// The image at `url`, shown as `title` and leading to `link`, of the default size
    /// and without a description. All three arguments are needed: no image has a
    /// sensible URL, title or link made up for it.
    pub fn new(url: String, title: String, link: Link) -> (image: Image)
        ensures
            image@ == ImageView::new(url@, title@, link@),
    {
        Image {
            url,
            title,
            link,
            width: DEFAULT_IMAGE_WIDTH,
            height: DEFAULT_IMAGE_HEIGHT,
            description: None,
        }
    }
}

/// The title an entry bears until a parser gives it one: `entry: ` and the entry's id.
pub open spec fn entry_title(id: Seq<char>) -> Seq<char> {
    "entry: "@ + id
}

/// The title a feed bears until a parser gives it one: `feed: ` and the feed's id.
pub open spec fn feed_title(id: Seq<char>) -> Seq<char> {
    "feed: "@ + id
}

/// What an [`Entry`] holds.
pub struct EntryView {
    pub id: Seq<char>,
    pub title: Seq<char>,
    pub updated: NaiveDateTime,
    pub authors: Seq<PersonView>,
    pub content: Option<ContentView>,
    pub link: Option<LinkView>,
    pub summary: Option<Seq<char>>,
    pub categories: Seq<CategoryView>,
    pub contributors: Seq<PersonView>,
    pub published: Option<NaiveDateTime>,
    pub source: Option<Seq<char>>,
    pub rights: Option<Seq<char>>,
}

impl EntryView {
    /// The entry `id` as it stands before anything is read into it: titled after its id,
    /// last changed at `updated`, and empty otherwise.
    pub open spec fn new(id: Seq<char>, updated: NaiveDateTime) -> EntryView {
        EntryView {
            id,
            title: entry_title(id),
            updated,
            authors: Seq::empty(),
            content: None,
            link: None,
            summary: None,
            categories: Seq::empty(),
            contributors: Seq::empty(),
            published: None,
            source: None,
            rights: None,
        }
    }

    /// An entry always has an id and a title.
    pub open spec fn well_formed(self) -> bool {
        self.id.len() > 0 && self.title.len() > 0
    }
}

/// One item of a feed: an Atom entry, an RSS item.
///
/// `updated` is when the entry last changed and `published` when it first appeared. The
/// two are kept apart even where a format gives only one of them.
#[derive(Debug)]
pub struct Entry {
    /// What the entry is known by; never empty.
    pub id: String,
    /// The entry's title; never empty.
    pub title: String,
    /// When the entry last changed in a way that matters.
    pub updated: NaiveDateTime,
    /// The authors, in the order the document names them.
    pub authors: Vec<Person>,
    /// The body of the entry, or where to find it.
    pub content: Option<Content>,
    /// The Web page that belongs to the entry.
    pub link: Option<Link>,
    /// A summary, an abstract or an excerpt.
    pub summary: Option<String>,
    /// The categories, in the order the document names them.
    pub categories: Vec<Category>,
    /// The contributors, in the order the document names them.
    pub contributors: Vec<Person>,
    /// When the entry first appeared.
    pub published: Option<NaiveDateTime>,
    /// A note on where the entry was taken from.
    pub source: Option<String>,
    /// The rights held in the entry.
    pub rights: Option<String>,
}

impl View for Entry {
    type V = EntryView;

    open spec fn view(&self) -> EntryView {
        EntryView {
            id: self.id@,
            title: self.title@,
            updated: self.updated,
            authors: self.authors.deep_view(),
            content: self.content.deep_view(),
            link: self.link.deep_view(),
            summary: self.summary.deep_view(),
            categories: self.categories.deep_view(),
            contributors: self.contributors.deep_view(),
            published: self.published,
            source: self.source.deep_view(),
            rights: self.rights.deep_view(),
        }
    }
}

impl DeepView for Entry {
    type V = EntryView;

    open spec fn deep_view(&self) -> EntryView {
        self@
    }
}

impl Entry {
    /// None of the lists of the entry has anything in it. The view says so too, of the
    /// views of the items; this says it of the lists themselves.
    pub open spec fn has_no_items(&self) -> bool {
        &&& self.authors@ == Seq::<Person>::empty()
        &&& self.categories@ == Seq::<Category>::empty()
        &&& self.contributors@ == Seq::<Person>::empty()
    }

    /// An entry with an id of its own, drawn at this call, and the time of this call as
    /// the time of its last change. It is titled after its id and empty otherwise.
    ///
    /// The id is the text of a random UUID. Everything else about the entry is settled by
    /// the id and the time, as [`Entry::with_identity`] says.
    ///
    /// No error is returned. The call panics only on a machine that has no random bytes
    /// to give or whose clock stands before 1970.
    pub fn new() -> (entry: Entry)
        ensures
            is_uuid_text(entry@.id),
            entry@ == EntryView::new(entry@.id, entry@.updated),
            entry@.well_formed(),
            entry.has_no_items(),
    {
        let id = uuid_gen();
        let updated = utc_now();
        Entry::with_identity(id, updated)
    }

    /// The entry `id`, last changed at `updated`: titled after its id and empty
    /// otherwise. In particular it has no time of publication: that is not the time of
    /// the last change.
    pub fn with_identity(id: String, updated: NaiveDateTime) -> (entry: Entry)
        requires
            id@.len() > 0,
        ensures
            entry@ == EntryView::new(id@, updated),
            entry@.well_formed(),
            entry.has_no_items(),
    {
        let title = String::from_str("entry: ").concat(id.as_str());
        let entry = Entry {
            id,
            title,
            updated,
            authors: Vec::new(),
            content: None,
            link: None,
            summary: None,
            categories: Vec::new(),
            contributors: Vec::new(),
            published: None,
            source: None,
            rights: None,
        };
        assert(entry@.authors =~= Seq::empty());
        assert(entry@.categories =~= Seq::empty());
        assert(entry@.contributors =~= Seq::empty());
        entry
    }
}

/// What a [`Feed`] holds.
pub struct FeedView {
    pub id: Seq<char>,
    pub title: Seq<char>,
    pub updated: NaiveDateTime,
    pub authors: Seq<PersonView>,
    pub description: Option<Seq<char>>,
    pub link: Option<LinkView>,
    pub categories: Seq<CategoryView>,
    pub contributors: Seq<PersonView>,
    pub generator: Option<GeneratorView>,
    pub icon: Option<Seq<char>>,
    pub language: Option<Seq<char>>,
    pub logo: Option<ImageView>,
    pub pub_date: Option<NaiveDateTime>,
    pub rights: Option<Seq<char>>,
    pub subtitle: Option<Seq<char>>,
    pub ttl: Option<u32>,
    pub entries: Seq<EntryView>,
}

impl FeedView {
    /// The feed `id` as it stands before anything is read into it: titled after its id,
    /// last changed at `updated`, and empty otherwise.
    pub open spec fn new(id: Seq<char>, updated: NaiveDateTime) -> FeedView {
        FeedView {
            id,
            title: feed_title(id),
            updated,
            authors: Seq::empty(),
            description: None,
            link: None,
            categories: Seq::empty(),
            contributors: Seq::empty(),
            generator: None,
            icon: None,
            language: None,
            logo: None,
            pub_date: None,
            rights: None,
            subtitle: None,
            ttl: None,
            entries: Seq::empty(),
        }
    }

    /// A feed always has an id and a title.
    pub open spec fn well_formed(self) -> bool {
        self.id.len() > 0 && self.title.len() > 0
    }
}

/// A whole feed: an Atom feed, an RSS channel.
#[derive(Debug)]
pub struct Feed {
    /// What the feed is known by; never empty.
    pub id: String,
    /// The feed's title; never empty.
    pub title: String,
    /// When the feed last changed in a way that matters.
    pub updated: NaiveDateTime,
    /// The authors, in the order the document names them.
    pub authors: Vec<Person>,
    /// What the feed is about.
    pub description: Option<String>,
    /// The Web site that belongs to the feed.
    pub link: Option<Link>,
    /// The categories, in the order the document names them.
    pub categories: Vec<Category>,
    /// The contributors, in the order the document names them.
    pub contributors: Vec<Person>,
    /// The software that wrote the feed.
    pub generator: Option<Generator>,
    /// The URI of a small image that stands for the feed.
    pub icon: Option<String>,
    /// The language the feed is written in; any tag is taken.
    pub language: Option<String>,
    /// A larger image that stands for the feed.
    pub logo: Option<Image>,
    /// When the content of the feed was published.
    pub pub_date: Option<NaiveDateTime>,
    /// The rights held in the feed.
    pub rights: Option<String>,
    /// A subtitle, or a longer description for a reader.
    pub subtitle: Option<String>,
    /// For how many minutes the feed may be cached.
    pub ttl: Option<u32>,
    /// The entries, in the order the document lists them.
    pub entries: Vec<Entry>,
}

impl View for Feed {
    type V = FeedView;

    open spec fn view(&self) -> FeedView {
        FeedView {
            id: self.id@,
            title: self.title@,
            updated: self.updated,
            authors: self.authors.deep_view(),
            description: self.description.deep_view(),
            link: self.link.deep_view(),
            categories: self.categories.deep_view(),
            contributors: self.contributors.deep_view(),
            generator: self.generator.deep_view(),
            icon: self.icon.deep_view(),
            language: self.language.deep_view(),
            logo: self.logo.deep_view(),
            pub_date: self.pub_date,
            rights: self.rights.deep_view(),
            subtitle: self.subtitle.deep_view(),
            ttl: self.ttl,
            entries: self.entries.deep_view(),
        }
    }
}

impl DeepView for Feed {
    type V = FeedView;

    open spec fn deep_view(&self) -> FeedView {
        self@
    }
}

impl Feed {
    /// None of the lists of the feed has anything in it. The view says so too, of the
    /// views of the items; this says it of the lists themselves.
    pub open spec fn has_no_items(&self) -> bool {
        &&& self.authors@ == Seq::<Person>::empty()
        &&& self.categories@ == Seq::<Category>::empty()
        &&& self.contributors@ == Seq::<Person>::empty()
        &&& self.entries@ == Seq::<Entry>::empty()
    }

    /// A feed with an id of its own, drawn at this call, and the time of this call as
    /// the time of its last change. It is titled after its id and empty otherwise.
    ///
    /// The id is the text of a random UUID. Everything else about the feed is settled by
    /// the id and the time, as [`Feed::with_identity`] says.
    ///
    /// No error is returned. The call panics only on a machine that has no random bytes
    /// to give or whose clock stands before 1970.
    pub fn new() -> (feed: Feed)
        ensures
            is_uuid_text(feed@.id),
            feed@ == FeedView::new(feed@.id, feed@.updated),
            feed@.well_formed(),
            feed.has_no_items(),
    {
        let id = uuid_gen();
        let updated = utc_now();
        Feed::with_identity(id, updated)
    }

    /// The feed `id`, last changed at `updated`: titled after its id and empty otherwise.
    pub fn with_identity(id: String, updated: NaiveDateTime) -> (feed: Feed)
        requires
            id@.len() > 0,
        ensures
            feed@ == FeedView::new(id@, updated),
            feed@.well_formed(),
            feed.has_no_items(),
    {
        let title = String::from_str("feed: ").concat(id.as_str());
        let feed = Feed {
            id,
            title,
            updated,
            authors: Vec::new(),
            description: None,
            link: None,
            categories: Vec::new(),
            contributors: Vec::new(),
            generator: None,
            icon: None,
            language: None,
            logo: None,
            pub_date: None,
            rights: None,
            subtitle: None,
            ttl: None,
            entries: Vec::new(),
        };
        assert(feed@.authors =~= Seq::empty());
        assert(feed@.categories =~= Seq::empty());
        assert(feed@.contributors =~= Seq::empty());
        assert(feed@.entries =~= Seq::empty());
        feed
    }
}

/// A feed or an entry that has only its id and the time of its last change is well
/// formed exactly when the id is not empty: the title after the id is never empty.
pub proof fn lemma_well_formed_iff_id_present(id: Seq<char>, updated: NaiveDateTime)
    ensures
        FeedView::new(id, updated).well_formed() <==> id.len() > 0,
        EntryView::new(id, updated).well_formed() <==> id.len() > 0,
        feed_title(id).len() > 0,
        entry_title(id).len() > 0,
{
    reveal_strlit("feed: ");
    reveal_strlit("entry: ");
}

/// The model hands an id on as it got it: feeds made from two different ids have
/// different ids, and so have entries. Whether two ids drawn by [`Feed::new`] or
/// [`Entry::new`] differ is up to the source they are drawn from.
pub proof fn lemma_ids_carry_over(
    a: Seq<char>,
    b: Seq<char>,
    at: NaiveDateTime,
    bt: NaiveDateTime,
)
    requires
        a != b,
    ensures
        FeedView::new(a, at).id != FeedView::new(b, bt).id,
        EntryView::new(a, at).id != EntryView::new(b, bt).id,
{
}

/// Appending to a list leaves the items that were in it where they were and puts the new
/// ones behind them, in the order in which they were appended; and the views of the
/// items follow. This holds of every list in the model: authors, categories,
/// contributors and entries.
pub proof fn lemma_appended_items_keep_order<T: DeepView>(
    before: Vec<T>,
    after: Vec<T>,
    appended: Seq<T>,
)
    requires
        after@ == before@ + appended,
    ensures
        after.deep_view() == before.deep_view() + appended.map_values(|t: T| t.deep_view()),
{
}

/// Appending to the entries of a feed leaves the entries that were there where they
/// were and puts the new ones behind them, in the order in which they were appended.
pub proof fn lemma_appended_entries_keep_order(before: Feed, after: Feed, appended: Seq<Entry>)
    requires
        after.entries@ == before.entries@ + appended,
    ensures
        after@.entries == before@.entries + appended.map_values(|e: Entry| e@),
{
    lemma_appended_items_keep_order(before.entries, after.entries, appended);
}

} // verus!
