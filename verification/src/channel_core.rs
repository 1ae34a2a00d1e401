//! Channel summaries.
use vstd::prelude::*;
use crate::channel_detail::ChannelDetail;
use crate::image::{Image, ImageView};
use crate::state::{State, StateAction, StateActionView};
use crate::state_error::StateErrorView;
use crate::table::{slot_view, Slot};
use crate::text::{holds, opt_text};

verus! {

/// What a catalog says of a channel at a glance.
#[derive(Debug)]
pub struct ChannelCore {
    /// Generally the catalog's id. Can also be the feed URL.
    pk: String,
    title: String,
    author: String,
    image_200: Option<String>,
    image_600: Option<String>,
    image_rss: Option<String>,
    rss: Option<String>,
}

/// The mathematical value of a [`ChannelCore`].
pub struct ChannelCoreView {
    pub pk: Seq<char>,
    pub title: Seq<char>,
    pub author: Seq<char>,
    pub image_200: Option<Seq<char>>,
    pub image_600: Option<Seq<char>>,
    pub image_rss: Option<Seq<char>>,
    pub rss: Option<Seq<char>>,
}

/// The slot of the image at `url`, where there is a URL and it has a slot.
pub open spec fn image_at(
    url: Option<Seq<char>>,
    images: Map<Seq<char>, Result<ImageView, StateErrorView>>,
) -> Option<Result<ImageView, StateErrorView>> {
    match url {
        Some(url) => if images.contains_key(url) {
            Some(images[url])
        } else {
            None
        },
        None => None,
    }
}

/// The better of two image slots: the first where it holds an image, else the
/// second where it has a slot at all, else the first with its error.
pub open spec fn preferred_image(
    first: Option<Result<ImageView, StateErrorView>>,
    second: Option<Result<ImageView, StateErrorView>>,
) -> Option<Result<ImageView, StateErrorView>> {
    if first matches Some(Ok(_)) {
        first
    } else if second is Some {
        second
    } else {
        first
    }
}

impl ChannelCoreView {
    /// The summary with every text empty and no URL.
    pub open spec fn empty() -> ChannelCoreView {
        ChannelCoreView {
            pk: Seq::empty(),
            title: Seq::empty(),
            author: Seq::empty(),
            image_200: None,
            image_600: None,
            image_rss: None,
            rss: None,
        }
    }

    /// Whether one of the three image URLs is `url`.
    pub open spec fn references_image(self, url: Seq<char>) -> bool {
        self.image_200 == Some(url) || self.image_600 == Some(url) || self.image_rss == Some(url)
    }

    /// This summary with each URL that it lacks taken from `previous`.
    pub open spec fn backfilled(self, previous: ChannelCoreView) -> ChannelCoreView {
        ChannelCoreView {
            image_200: if self.image_200 is None {
                previous.image_200
            } else {
                self.image_200
            },
            image_600: if self.image_600 is None {
                previous.image_600
            } else {
                self.image_600
            },
            image_rss: if self.image_rss is None {
                previous.image_rss
            } else {
                self.image_rss
            },
            rss: if self.rss is None {
                previous.rss
            } else {
                self.rss
            },
            ..self
        }
    }

    /// The image for a small rendering, out of `images`.
    pub open spec fn small_image(
        self,
        images: Map<Seq<char>, Result<ImageView, StateErrorView>>,
    ) -> Option<Result<ImageView, StateErrorView>> {
        preferred_image(image_at(self.image_200, images), image_at(self.image_600, images))
    }

    /// The image for a large rendering, out of `images`.
    pub open spec fn big_image(
        self,
        images: Map<Seq<char>, Result<ImageView, StateErrorView>>,
    ) -> Option<Result<ImageView, StateErrorView>> {
        preferred_image(image_at(self.image_600, images), image_at(self.image_rss, images))
    }
}

impl View for ChannelCore {
    type V = ChannelCoreView;

    closed spec fn view(&self) -> ChannelCoreView {
        ChannelCoreView {
            pk: self.pk@,
            title: self.title@,
            author: self.author@,
            image_200: opt_text(self.image_200),
            image_600: opt_text(self.image_600),
            image_rss: opt_text(self.image_rss),
            rss: opt_text(self.rss),
        }
    }
}

/// The better of two image slots, as [`preferred_image`] defines it.
pub(crate) fn prefer(first: Option<Slot<Image>>, second: Option<Slot<Image>>) -> (best: Option<
    Slot<Image>,
>)
    ensures
        best is Some == preferred_image(opt_slot(first), opt_slot(second)) is Some,
        best matches Some(slot) ==> Some(slot_view(&*slot)) == preferred_image(
            opt_slot(first),
            opt_slot(second),
        ),
{
    let usable = match &first {
        Some(slot) => slot.is_ok(),
        None => false,
    };
    if usable {
        first
    } else if second.is_some() {
        second
    } else {
        first
    }
}

/// The mathematical value of an image slot that may be missing.
pub open spec fn opt_slot(slot: Option<Slot<Image>>) -> Option<Result<ImageView, StateErrorView>> {
    match slot {
        Some(slot) => Some(slot_view(&*slot)),
        None => None,
    }
}

impl ChannelCore {
    /// The channel's key.
    pub fn pk(&self) -> (pk: &str)
        ensures
            pk@ == self@.pk,
    {
        self.pk.as_str()
    }

    pub fn with_pk(self, pk: String) -> (core: Self)
        ensures
            core@ == (ChannelCoreView { pk: pk@, ..self@ }),
    {
        let mut next = self;
        next.pk = pk;
        next
    }

    pub fn title(&self) -> (title: &str)
        ensures
            title@ == self@.title,
    {
        self.title.as_str()
    }

    pub fn with_title(self, title: String) -> (core: Self)
        ensures
            core@ == (ChannelCoreView { title: title@, ..self@ }),
    {
        let mut next = self;
        next.title = title;
        next
    }

    pub fn author(&self) -> (author: &str)
        ensures
            author@ == self@.author,
    {
        self.author.as_str()
    }

    pub fn with_author(self, author: String) -> (core: Self)
        ensures
            core@ == (ChannelCoreView { author: author@, ..self@ }),
    {
        let mut next = self;
        next.author = author;
        next
    }

    pub fn with_image_200(self, image_200: String) -> (core: Self)
        ensures
            core@ == (ChannelCoreView { image_200: Some(image_200@), ..self@ }),
    {
        let mut next = self;
        next.image_200 = Some(image_200);
        next
    }

    pub fn with_image_600(self, image_600: String) -> (core: Self)
        ensures
            core@ == (ChannelCoreView { image_600: Some(image_600@), ..self@ }),
    {
        let mut next = self;
        next.image_600 = Some(image_600);
        next
    }

    pub fn with_image_rss(self, image_rss: String) -> (core: Self)
        ensures
            core@ == (ChannelCoreView { image_rss: Some(image_rss@), ..self@ }),
    {
        let mut next = self;
        next.image_rss = Some(image_rss);
        next
    }

    /// The URL of the channel's feed, once a catalog has told it.
    pub fn rss(&self) -> (rss: Option<&str>)
        ensures
            rss is Some == self@.rss is Some,
            rss matches Some(url) ==> Some(url@) == self@.rss,
    {
        match &self.rss {
            Some(url) => Some(url.as_str()),
            None => None,
        }
    }

    pub fn with_rss(self, rss: String) -> (core: Self)
        ensures
            core@ == (ChannelCoreView { rss: Some(rss@), ..self@ }),
    {
        let mut next = self;
        next.rss = Some(rss);
        next
    }

    /// The image for a small rendering, as `state` has it: the 200 pixel
    /// image where it is loaded, else the 600 pixel one, else the 200 pixel
    /// one's error.
    pub fn small_image(&self, state: &State) -> (found: Option<Slot<Image>>)
        ensures
            opt_slot(found) == self@.small_image(state@.images),
    {
        let first = match &self.image_200 {
            Some(url) => state.image_of(url.as_str()),
            None => None,
        };
        let second = match &self.image_600 {
            Some(url) => state.image_of(url.as_str()),
            None => None,
        };
        prefer(first, second)
    }

    /// The image for a large rendering, as `state` has it: the 600 pixel
    /// image where it is loaded, else the feed's own, else the 600 pixel
    /// one's error.
    pub fn big_image(&self, state: &State) -> (found: Option<Slot<Image>>)
        ensures
            opt_slot(found) == self@.big_image(state@.images),
    {
        let first = match &self.image_600 {
            Some(url) => state.image_of(url.as_str()),
            None => None,
        };
        let second = match &self.image_rss {
            Some(url) => state.image_of(url.as_str()),
            None => None,
        };
        prefer(first, second)
    }

    /// The channel's details as `state` has them.
    pub fn details(&self, state: &State) -> (found: Option<Slot<ChannelDetail>>)
        ensures
            found is Some == state@.channel_detail.contains_key(self@.pk),
            found matches Some(slot) ==> slot_view(&*slot) == state@.channel_detail[self@.pk],
    {
        state.detail_of(self.pk.as_str())
    }

    /// The action that writes this summary into the store, under its key.
    pub fn build(self) -> (action: StateAction)
        ensures
            action@ == StateActionView::SetChannelCore(self@.pk, Ok(self@)),
    {
        StateAction::SetChannelCore(self.pk.clone(), Ok(self))
    }

    /// Takes from `other` each URL that this summary lacks.
    pub(crate) fn update(&mut self, other: &ChannelCore)
        ensures
            final(self)@ == old(self)@.backfilled(other@),
    {
        if self.image_200.is_none() {
            self.image_200 = other.image_200.clone();
        }
        if self.image_600.is_none() {
            self.image_600 = other.image_600.clone();
        }
        if self.image_rss.is_none() {
            self.image_rss = other.image_rss.clone();
        }
        if self.rss.is_none() {
            self.rss = other.rss.clone();
        }
    }

    /// Whether one of the three image URLs is `image`.
    pub(crate) fn references_image(&self, image: &str) -> (r: bool)
        ensures
            r == self@.references_image(image@),
    {
        holds(&self.image_200, image) || holds(&self.image_600, image) || holds(
            &self.image_rss,
            image,
        )
    }
}

impl Clone for ChannelCore {
    fn clone(&self) -> (copy: Self)
        ensures
            copy@ == self@,
    {
        ChannelCore {
            pk: self.pk.clone(),
            title: self.title.clone(),
            author: self.author.clone(),
            image_200: self.image_200.clone(),
            image_600: self.image_600.clone(),
            image_rss: self.image_rss.clone(),
            rss: self.rss.clone(),
        }
    }
}

impl Default for ChannelCore {
    fn default() -> (core: Self)
        ensures
            core@ == ChannelCoreView::empty(),
    {
        ChannelCore {
            pk: String::new(),
            title: String::new(),
            author: String::new(),
            image_200: None,
            image_600: None,
            image_rss: None,
            rss: None,
        }
    }
}

} // verus!
