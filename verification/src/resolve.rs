//! Locale resolution: which locale file is loaded for a requested locale.
//!
//! For each candidate tag, most specific first, the user's own file is looked
//! for, then the file that ships with the application. The first file that
//! exists is the one that is loaded. The host does the looking; the search
//! kept here tells it where to look next and takes its answers.

use crate::error::{AppError, AppErrorView};
use crate::locale::{candidates_of, locale_candidates, lowercased};
use crate::paths::{FilePath, FilePathView};
use vstd::prelude::*;

verus! {

/// Name of the folder of the user's own locale files, in the configuration
/// directory.
pub const LOCALES_FOLDER: &'static str = "locales";

/// What follows the tag in the name of a locale file.
pub const LOCALE_EXTENSION: &'static str = ".yaml";

/// What precedes the file name in the resource name of a locale file that
/// ships with the application.
pub const BUNDLED_LOCALES: &'static str = "resources/locales/";

/// A place where a locale file may lie.
#[derive(Debug, PartialEq, Eq)]
pub enum LocaleTarget {
    /// The user's own file, below the configuration directory.
    UserFile(FilePath),
    /// A file that ships with the application, by its resource name, which
    /// the host resolves.
    BundledResource(String),
}

/// What a `LocaleTarget` holds, as text.
pub ghost enum LocaleTargetView {
    UserFile(FilePathView),
    BundledResource(Seq<char>),
}

impl View for LocaleTarget {
    type V = LocaleTargetView;

    open spec fn view(&self) -> LocaleTargetView {
        match self {
            LocaleTarget::UserFile(path) => LocaleTargetView::UserFile(path@),
            LocaleTarget::BundledResource(name) => LocaleTargetView::BundledResource(name@),
        }
    }
}

impl DeepView for LocaleTarget {
    type V = LocaleTargetView;

    open spec fn deep_view(&self) -> LocaleTargetView {
        self@
    }
}

impl Clone for LocaleTarget {
    fn clone(&self) -> (copy: Self)
        ensures
            copy@ == self@,
    {
        match self {
            LocaleTarget::UserFile(path) => LocaleTarget::UserFile(path.clone()),
            LocaleTarget::BundledResource(name) => LocaleTarget::BundledResource(name.clone()),
        }
    }
}

/// The name of the locale file of `tag`.
pub open spec fn file_name_of(tag: Seq<char>) -> Seq<char> {
    tag + LOCALE_EXTENSION@
}

/// The user's own locale file of `tag`, where `dir` is the configuration
/// directory.
pub open spec fn user_target(dir: FilePathView, tag: Seq<char>) -> LocaleTargetView {
    LocaleTargetView::UserFile(dir.join(LOCALES_FOLDER@).join(file_name_of(tag)))
}

/// The locale file of `tag` that ships with the application.
pub open spec fn bundled_target(tag: Seq<char>) -> LocaleTargetView {
    LocaleTargetView::BundledResource(BUNDLED_LOCALES@ + file_name_of(tag))
}

/// The places to look in for one tag, in order: the user's own file, where
/// the configuration directory is known, then the bundled file.
pub open spec fn targets_of(user_dir: Option<FilePathView>, tag: Seq<char>) -> Seq<
    LocaleTargetView,
> {
    match user_dir {
        Some(dir) => seq![user_target(dir, tag), bundled_target(tag)],
        None => seq![bundled_target(tag)],
    }
}

/// The places to look in for these tags, in order: those of the first tag,
/// then those of the second, and so on.
pub open spec fn probe_order(user_dir: Option<FilePathView>, tags: Seq<Seq<char>>) -> Seq<
    LocaleTargetView,
>
    decreases tags.len(),
{
    if tags.len() == 0 {
        Seq::empty()
    } else {
        targets_of(user_dir, tags.first()) + probe_order(user_dir, tags.drop_first())
    }
}

/// The name of the locale file of `tag`.
pub fn locale_file_name(tag: &str) -> (name: String)
    ensures
        name@ == file_name_of(tag@),
{
    String::from_str(tag).concat(LOCALE_EXTENSION)
}

/// The user's own locale file of `tag`, where `dir` is the configuration
/// directory.
pub fn user_locale_file(dir: &FilePath, tag: &str) -> (target: LocaleTarget)
    ensures
        target@ == user_target(dir@, tag@),
{
    let name = locale_file_name(tag);
    LocaleTarget::UserFile(dir.clone().join(LOCALES_FOLDER).join(name.as_str()))
}

/// The locale file of `tag` that ships with the application.
pub fn bundled_locale_resource(tag: &str) -> (target: LocaleTarget)
    ensures
        target@ == bundled_target(tag@),
{
    let name = locale_file_name(tag);
    LocaleTarget::BundledResource(String::from_str(BUNDLED_LOCALES).concat(name.as_str()))
}

/// The places for a list of tags and one more tag are the places for the
/// list, followed by those for the tag.
proof fn lemma_probe_order_push(
    user_dir: Option<FilePathView>,
    tags: Seq<Seq<char>>,
    tag: Seq<char>,
)
    ensures
        probe_order(user_dir, tags.push(tag)) == probe_order(user_dir, tags) + targets_of(
            user_dir,
            tag,
        ),
    decreases tags.len(),
{
    if tags.len() == 0 {
        assert(tags.push(tag).drop_first() =~= tags);
    } else {
        lemma_probe_order_push(user_dir, tags.drop_first(), tag);
        assert(tags.push(tag).drop_first() =~= tags.drop_first().push(tag));
    }
}

/// Lists the places to look in for `tags`, in the order in which they are
/// looked in.
pub fn locale_targets(user_dir: &Option<FilePath>, tags: &Vec<String>) -> (order: Vec<
    LocaleTarget,
>)
    ensures
        order.deep_view() == probe_order(user_dir.deep_view(), tags.deep_view()),
{
    let mut order: Vec<LocaleTarget> = Vec::new();
    let mut i: usize = 0;
    while i < tags.len()
        invariant
            i <= tags.len(),
            order.deep_view() == probe_order(user_dir.deep_view(), tags.deep_view().take(i as int)),
        decreases tags.len() - i,
    {
        proof {
            let tag = tags[i as int]@;
            lemma_probe_order_push(user_dir.deep_view(), tags.deep_view().take(i as int), tag);
            assert(tags.deep_view().take(i as int).push(tag) =~= tags.deep_view().take(i + 1));
        }
        match user_dir {
            Some(dir) => {
                order.push(user_locale_file(dir, tags[i].as_str()));
                order.push(bundled_locale_resource(tags[i].as_str()));
            },
            None => {
                order.push(bundled_locale_resource(tags[i].as_str()));
            },
        }
        i = i + 1;
    }
    proof {
        assert(tags.deep_view().take(i as int) =~= tags.deep_view());
    }
    order
}

/// What the host does next.
#[derive(Debug, PartialEq, Eq)]
pub enum LocaleAction {
    /// Find out whether a file lies in this place, and tell the search.
    Probe(LocaleTarget),
    /// Read and parse the file in this place. What comes of that, good or
    /// bad, is the result of the resolution: no other place is tried.
    Load(LocaleTarget),
    /// Give up with this error.
    Fail(AppError),
}

/// What a `LocaleAction` holds, as text.
pub ghost enum LocaleActionView {
    Probe(LocaleTargetView),
    Load(LocaleTargetView),
    Fail(AppErrorView),
}

impl View for LocaleAction {
    type V = LocaleActionView;

    open spec fn view(&self) -> LocaleActionView {
        match self {
            LocaleAction::Probe(target) => LocaleActionView::Probe(target@),
            LocaleAction::Load(target) => LocaleActionView::Load(target@),
            LocaleAction::Fail(error) => LocaleActionView::Fail(error@),
        }
    }
}

/// A search, as mathematical values: the places in the order in which they
/// are looked in, the place that is looked in now, and whether a file was
/// found there.
pub ghost struct LocaleSearchView {
    pub order: Seq<LocaleTargetView>,
    pub position: nat,
    pub hit: bool,
}

impl LocaleSearchView {
    /// A search that has not looked anywhere yet.
    pub open spec fn start(order: Seq<LocaleTargetView>) -> LocaleSearchView {
        LocaleSearchView { order, position: 0, hit: false }
    }

    /// The place that is looked in lies within the order; past its end no
    /// file was found.
    pub open spec fn wf(self) -> bool {
        &&& self.position <= self.order.len()
        &&& self.hit ==> self.position < self.order.len()
    }

    /// What the host does next: load where a file was found, give up where
    /// every place was looked in, else look in the current place.
    pub open spec fn action(self) -> LocaleActionView {
        if self.position >= self.order.len() {
            LocaleActionView::Fail(AppErrorView::LocaleNotFound)
        } else if self.hit {
            LocaleActionView::Load(self.order[self.position as int])
        } else {
            LocaleActionView::Probe(self.order[self.position as int])
        }
    }

    /// The search after the host has told whether a file lies in the current
    /// place: found, or on to the next place. A search that is over stays
    /// as it is.
    pub open spec fn record(self, exists: bool) -> LocaleSearchView {
        if self.hit || self.position >= self.order.len() {
            self
        } else if exists {
            LocaleSearchView { hit: true, ..self }
        } else {
            LocaleSearchView { position: self.position + 1, ..self }
        }
    }

    /// What the search ends in, where `present` tells in which places a file
    /// lies and the host answers each probe accordingly.
    pub open spec fn outcome(self, present: spec_fn(LocaleTargetView) -> bool) -> LocaleActionView
        decreases self.order.len() - self.position, if self.hit { 0nat } else { 1nat },
    {
        match self.action() {
            LocaleActionView::Probe(target) => self.record(present(target)).outcome(present),
            done => done,
        }
    }
}

/// The search for a locale file: where to look, in which order, and how far
/// the looking has come.
pub struct LocaleSearch {
    order: Vec<LocaleTarget>,
    position: usize,
    hit: bool,
}

impl View for LocaleSearch {
    type V = LocaleSearchView;

    closed spec fn view(&self) -> LocaleSearchView {
        LocaleSearchView {
            order: self.order.deep_view(),
            position: self.position as nat,
            hit: self.hit,
        }
    }
}

impl LocaleSearch {
    #[verifier::type_invariant]
    spec fn well_formed(self) -> bool {
        self@.wf()
    }

    /// The search for the locale `raw_locale`, over its candidate tags.
    /// `user_dir` is the configuration directory, or `None` where none is
    /// known: then only bundled files are looked for.
    pub fn start(user_dir: &Option<FilePath>, raw_locale: &str) -> (search: Self)
        ensures
            search@ == LocaleSearchView::start(
                probe_order(user_dir.deep_view(), candidates_of(lowercased(raw_locale@))),
            ),
    {
        let tags = locale_candidates(raw_locale);
        Self::over(user_dir, &tags)
    }

    /// The search over the given tags, most specific first.
    pub fn over(user_dir: &Option<FilePath>, tags: &Vec<String>) -> (search: Self)
        ensures
            search@ == LocaleSearchView::start(
                probe_order(user_dir.deep_view(), tags.deep_view()),
            ),
    {
        LocaleSearch { order: locale_targets(user_dir, tags), position: 0, hit: false }
    }

    /// What the host does next.
    pub fn action(&self) -> (action: LocaleAction)
        ensures
            self@.wf(),
            action@ == self@.action(),
    {
        proof {
            use_type_invariant(self);
        }
        if self.position >= self.order.len() {
            LocaleAction::Fail(AppError::LocaleNotFound)
        } else if self.hit {
            LocaleAction::Load(self.order[self.position].clone())
        } else {
            LocaleAction::Probe(self.order[self.position].clone())
        }
    }

    /// Takes the host's answer to the probe that `action` asked for: whether
    /// a file lies in that place.
    pub fn record(&mut self, exists: bool)
        ensures
            final(self)@ == old(self)@.record(exists),
    {
        proof {
            use_type_invariant(&*self);
        }
        if self.hit || self.position >= self.order.len() {
        } else if exists {
            self.hit = true;
        } else {
            self.position = self.position + 1;
        }
    }
}

/// Which file is loaded for these tags, where `present` tells in which
/// places a file lies: that of the first tag for which a file lies in either
/// place, and of its two files the user's own if there is one. Where no tag
/// has a file in either place, the resolution fails.
pub open spec fn resolution(
    user_dir: Option<FilePathView>,
    tags: Seq<Seq<char>>,
    present: spec_fn(LocaleTargetView) -> bool,
) -> LocaleActionView
    decreases tags.len(),
{
    if tags.len() == 0 {
        LocaleActionView::Fail(AppErrorView::LocaleNotFound)
    } else if user_dir is Some && present(user_target(user_dir->0, tags.first())) {
        LocaleActionView::Load(user_target(user_dir->0, tags.first()))
    } else if present(bundled_target(tags.first())) {
        LocaleActionView::Load(bundled_target(tags.first()))
    } else {
        resolution(user_dir, tags.drop_first(), present)
    }
}

/// How many places come before those of the tag at `index`.
pub open spec fn places_before(user_dir: Option<FilePathView>, index: int) -> int {
    if user_dir is Some {
        2 * index
    } else {
        index
    }
}

/// Where in the order the places of each tag stand.
pub proof fn lemma_probe_order_index(
    user_dir: Option<FilePathView>,
    tags: Seq<Seq<char>>,
    index: int,
)
    requires
        0 <= index < tags.len(),
    ensures
        probe_order(user_dir, tags).len() == places_before(user_dir, tags.len() as int),
        user_dir is Some ==> probe_order(user_dir, tags)[2 * index] == user_target(
            user_dir->0,
            tags[index],
        ) && probe_order(user_dir, tags)[2 * index + 1] == bundled_target(tags[index]),
        user_dir is None ==> probe_order(user_dir, tags)[index] == bundled_target(tags[index]),
    decreases tags.len(),
{
    lemma_probe_order_len(user_dir, tags);
    if index > 0 {
        lemma_probe_order_index(user_dir, tags.drop_first(), index - 1);
    }
}

/// How many places there are to look in.
pub proof fn lemma_probe_order_len(user_dir: Option<FilePathView>, tags: Seq<Seq<char>>)
    ensures
        probe_order(user_dir, tags).len() == places_before(user_dir, tags.len() as int),
    decreases tags.len(),
{
    if tags.len() > 0 {
        lemma_probe_order_len(user_dir, tags.drop_first());
    }
}

/// A search that has come to the places of the tag at `index` without a find
/// ends as the resolution over the tags from there on does.
proof fn lemma_outcome_from(
    user_dir: Option<FilePathView>,
    tags: Seq<Seq<char>>,
    present: spec_fn(LocaleTargetView) -> bool,
    index: int,
)
    requires
        0 <= index <= tags.len(),
    ensures
        (LocaleSearchView {
            order: probe_order(user_dir, tags),
            position: places_before(user_dir, index) as nat,
            hit: false,
        }).outcome(present) == resolution(user_dir, tags.skip(index), present),
    decreases tags.len() - index,
{
    lemma_probe_order_len(user_dir, tags);
    if index < tags.len() {
        lemma_probe_order_index(user_dir, tags, index);
        lemma_outcome_from(user_dir, tags, present, index + 1);
        assert(tags.skip(index).drop_first() =~= tags.skip(index + 1));
        let order = probe_order(user_dir, tags);
        let bundled = bundled_target(tags[index]);
        let at_bundled = LocaleSearchView {
            order,
            position: (places_before(user_dir, index + 1) - 1) as nat,
            hit: false,
        };
        let at_next = LocaleSearchView {
            order,
            position: places_before(user_dir, index + 1) as nat,
            hit: false,
        };
        assert(at_bundled.record(true).outcome(present) == LocaleActionView::Load(bundled));
        assert(at_bundled.outcome(present) == if present(bundled) {
            LocaleActionView::Load(bundled)
        } else {
            at_next.outcome(present)
        });
        if user_dir is Some {
            let user = user_target(user_dir->0, tags[index]);
            let at_user = LocaleSearchView { order, position: (2 * index) as nat, hit: false };
            assert(at_user.record(true).outcome(present) == LocaleActionView::Load(user));
            assert(at_user.record(false) == at_bundled);
        }
    }
}

/// The search, answered truthfully, ends in what the resolution says: the
/// user's own file wins over the bundled file of the same tag, and a less
/// specific tag is turned to only where the tags before it have no file in
/// either place.
pub proof fn lemma_search_follows_resolution(
    user_dir: Option<FilePathView>,
    tags: Seq<Seq<char>>,
    present: spec_fn(LocaleTargetView) -> bool,
)
    ensures
        LocaleSearchView::start(probe_order(user_dir, tags)).outcome(present) == resolution(
            user_dir,
            tags,
            present,
        ),
{
    lemma_outcome_from(user_dir, tags, present, 0);
    assert(tags.skip(0) =~= tags);
}

/// What the resolution comes to, said without the search: with `index` the
/// first tag that has a file in either place, the user's own file of that tag
/// is loaded if it exists, else the bundled one.
pub proof fn lemma_resolution_first_present(
    user_dir: Option<FilePathView>,
    tags: Seq<Seq<char>>,
    present: spec_fn(LocaleTargetView) -> bool,
    index: int,
)
    requires
        0 <= index < tags.len(),
        forall|j: int|
            0 <= j < index ==> !(user_dir is Some && present(
                user_target(user_dir->0, #[trigger] tags[j]),
            )) && !present(bundled_target(tags[j])),
        (user_dir is Some && present(user_target(user_dir->0, tags[index]))) || present(
            bundled_target(tags[index]),
        ),
    ensures
        resolution(user_dir, tags, present) == if user_dir is Some && present(
            user_target(user_dir->0, tags[index]),
        ) {
            LocaleActionView::Load(user_target(user_dir->0, tags[index]))
        } else {
            LocaleActionView::Load(bundled_target(tags[index]))
        },
    decreases index,
{
    if index > 0 {
        assert forall|j: int| 0 <= j < index - 1 implies !(user_dir is Some && present(
            user_target(user_dir->0, #[trigger] tags.drop_first()[j]),
        )) && !present(bundled_target(tags.drop_first()[j])) by {
            assert(tags.drop_first()[j] == tags[j + 1]);
        }
        lemma_resolution_first_present(user_dir, tags.drop_first(), present, index - 1);
    }
}

/// A file that was found stays found: whatever the host tells the search
/// afterwards, the search goes on asking for that file to be loaded, and
/// turns to no other.
pub proof fn lemma_found_file_is_final(search: LocaleSearchView, exists: bool)
    requires
        search.wf(),
        search.hit,
    ensures
        search.action() == LocaleActionView::Load(search.order[search.position as int]),
        search.record(exists) == search,
{
}

/// The resolution fails exactly where no tag has a file in either place.
pub proof fn lemma_resolution_fails_only_when_nothing_exists(
    user_dir: Option<FilePathView>,
    tags: Seq<Seq<char>>,
    present: spec_fn(LocaleTargetView) -> bool,
)
    ensures
        resolution(user_dir, tags, present) == LocaleActionView::Fail(AppErrorView::LocaleNotFound)
            <==> forall|j: int|
            0 <= j < tags.len() ==> !(user_dir is Some && present(
                user_target(user_dir->0, #[trigger] tags[j]),
            )) && !present(bundled_target(tags[j])),
    decreases tags.len(),
{
    if tags.len() > 0 {
        lemma_resolution_fails_only_when_nothing_exists(user_dir, tags.drop_first(), present);
        let rest = tags.drop_first();
        if resolution(user_dir, tags, present) == LocaleActionView::Fail(
            AppErrorView::LocaleNotFound,
        ) {
            assert forall|j: int| 0 <= j < tags.len() implies !(user_dir is Some && present(
                user_target(user_dir->0, #[trigger] tags[j]),
            )) && !present(bundled_target(tags[j])) by {
                if j > 0 {
                    assert(rest[j - 1] == tags[j]);
                }
            }
        } else {
            if !(user_dir is Some && present(user_target(user_dir->0, tags.first())))
                && !present(bundled_target(tags.first())) {
                let j = choose|j: int|
                    0 <= j < rest.len() && !(!(user_dir is Some && present(
                        user_target(user_dir->0, #[trigger] rest[j]),
                    )) && !present(bundled_target(rest[j])));
                assert(tags[j + 1] == rest[j]);
            }
        }
    }
}

} // verus!
