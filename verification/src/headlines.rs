//! The application state of the headlines viewer: the displayed cards,
//! the user configuration, the key-entry gate, and the fetch conduit that
//! carries cards from the background fetch task to the display.

use crate::decimal::{dec_str, u32_to_string};
use crate::newsapi::{Article, ArticleModel, Articles, Country, NewsApiError};
use vstd::prelude::*;
use vstd::string::StringExecFns;

verus! {

/// The user configuration. The key and the theme flag are persisted; the
/// country selection lives for the session.
#[derive(Clone, Debug)]
pub struct HeadlinesConfig {
    pub dark_mode: bool,
    pub api_key: String,
    pub selected_country: Country,
}

impl Default for HeadlinesConfig {
    /// The configuration used when nothing was persisted: light theme, no
    /// key, and United States headlines.
    fn default() -> (c: HeadlinesConfig)
        ensures
            c.dark_mode == false,
            c.api_key@ == Seq::<char>::empty(),
            c.selected_country == Country::Us,
    {
        HeadlinesConfig {
            dark_mode: false,
            api_key: String::new(),
            selected_country: Country::Us,
        }
    }
}

/// A refetch signal from the UI thread to a background worker: the
/// country selection changed, or a manual refresh was requested; either
/// way it carries the country the new fetch is for. Consumed once.
#[derive(Clone, Copy, Debug, PartialEq, Eq, Structural)]
pub enum FetchRequest {
    CountryChanged(Country),
    Refresh(Country),
}

impl FetchRequest {
    /// The country the new fetch is for.
    pub open spec fn spec_country(&self) -> Country {
        match *self {
            FetchRequest::CountryChanged(c) => c,
            FetchRequest::Refresh(c) => c,
        }
    }

    /// The country the new fetch is for.
    pub fn country(&self) -> (c: Country)
        ensures
            c == self.spec_country(),
    {
        match self {
            FetchRequest::CountryChanged(c) => *c,
            FetchRequest::Refresh(c) => *c,
        }
    }
}

/// One displayed news card.
#[derive(Clone, Debug)]
pub struct NewsCardData {
    pub title: String,
    pub desc: String,
    pub url: String,
}

/// The mathematical content of a card.
pub ghost struct CardModel {
    pub title: Seq<char>,
    pub desc: Seq<char>,
    pub url: Seq<char>,
}

impl View for NewsCardData {
    type V = CardModel;

    open spec fn view(&self) -> CardModel {
        CardModel { title: self.title@, desc: self.desc@, url: self.url@ }
    }
}

/// The card showing one fetched article.
pub open spec fn card_of_article(a: ArticleModel) -> CardModel {
    CardModel { title: a.title, desc: a.description, url: a.url }
}

impl NewsCardData {
    /// The card showing one fetched article, fields copied verbatim.
    pub fn from_article(a: &Article) -> (c: NewsCardData)
        ensures
            c@ == card_of_article(a@),
    {
        NewsCardData {
            title: a.title.clone(),
            desc: a.description.clone(),
            url: a.url.clone(),
        }
    }
}

/// The fetch conduit: cards the background fetch task has produced and
/// the display has not drained yet, oldest first.
pub struct FetchChannel {
    queue: Vec<NewsCardData>,
}

impl View for FetchChannel {
    type V = Seq<CardModel>;

    closed spec fn view(&self) -> Seq<CardModel> {
        self.queue@.map_values(|c: NewsCardData| c@)
    }
}

impl FetchChannel {
    /// An empty channel.
    pub fn new() -> (ch: FetchChannel)
        ensures
            ch@ == Seq::<CardModel>::empty(),
    {
        let ch = FetchChannel { queue: Vec::new() };
        proof {
            assert(ch@ =~= Seq::<CardModel>::empty());
        }
        ch
    }

    /// How many cards are pending.
    pub fn len(&self) -> (n: usize)
        ensures
            n == self@.len(),
    {
        self.queue.len()
    }

    /// The producer's end: appends one card and never blocks.
    pub fn send(&mut self, card: NewsCardData)
        ensures
            final(self)@ == old(self)@.push(card@),
    {
        self.queue.push(card);
        proof {
            assert(self@ =~= old(self)@.push(card@));
        }
    }

    /// The consumer's end: takes the oldest pending card. Nothing being
    /// available yet is a normal condition, not an error.
    pub fn try_recv(&mut self) -> (r: Option<NewsCardData>)
        ensures
            old(self)@.len() == 0 ==> r is None && final(self)@ == old(self)@,
            old(self)@.len() > 0 ==> match r {
                Some(c) => c@ == old(self)@[0] && final(self)@ == old(self)@.drop_first(),
                None => false,
            },
    {
        if self.queue.len() == 0 {
            None
        } else {
            let c = self.queue.remove(0);
            proof {
                assert(self@ =~= old(self)@.drop_first());
            }
            Some(c)
        }
    }
}

/// The forwarding step of the background fetch task: on a successful
/// fetch every article is sent down the channel, one at a time and in the
/// order fetched; on a failed fetch nothing is sent.
pub fn forward_fetch_result(result: &Result<Articles, NewsApiError>, tx: &mut FetchChannel)
    ensures
        match result {
            Ok(arts) => final(tx)@ == old(tx)@ + arts@.map_values(
                |a: ArticleModel| card_of_article(a),
            ),
            Err(_) => final(tx)@ == old(tx)@,
        },
{
    match result {
        Ok(arts) => {
            let n = arts.articles.len();
            let mut i: usize = 0;
            while i < n
                invariant
                    i <= n,
                    n == arts.articles@.len(),
                    tx@ == old(tx)@ + arts@.take(i as int).map_values(
                        |a: ArticleModel| card_of_article(a),
                    ),
                decreases n - i,
            {
                let card = NewsCardData::from_article(&arts.articles[i]);
                tx.send(card);
                proof {
                    assert(tx@ =~= old(tx)@ + arts@.take(i + 1).map_values(
                        |a: ArticleModel| card_of_article(a),
                    ));
                }
                i = i + 1;
            }
            proof {
                assert(arts@.take(n as int) =~= arts@);
            }
        },
        Err(_) => {},
    }
}

/// Whether the key-entry prompt or the main view is shown next.
#[derive(Clone, Copy, Debug, PartialEq, Eq, Structural)]
pub enum Screen {
    KeyEntry,
    MainView,
}

/// The application state: the displayed cards, the user configuration,
/// and the key-entry gate.
pub struct Headlines {
    pub articles: Vec<NewsCardData>,
    pub config: HeadlinesConfig,
    pub api_key_initialized: bool,
}

/// The card at position `i` of a fresh state's placeholder list.
pub open spec fn placeholder_card(i: nat) -> CardModel {
    CardModel {
        title: "title"@ + dec_str(i),
        desc: "desc"@ + dec_str(i),
        url: "https://example.com/"@ + dec_str(i),
    }
}

impl Headlines {
    /// The displayed cards as mathematical values.
    pub open spec fn shown(&self) -> Seq<CardModel> {
        self.articles@.map_values(|c: NewsCardData| c@)
    }

    /// The state invariant: the key-entry gate is open exactly when the
    /// stored key is non-empty.
    pub open spec fn wf(&self) -> bool {
        self.api_key_initialized == (self.config.api_key@.len() > 0)
    }

    /// A fresh state for a configuration: twenty numbered sample cards,
    /// and the key-entry gate open exactly when the configuration holds a
    /// non-empty key.
    pub fn new(config: HeadlinesConfig) -> (h: Headlines)
        ensures
            h.config == config,
            h.api_key_initialized == (config.api_key@.len() > 0),
            h.shown().len() == 20,
            forall|i: int| 0 <= i < 20 ==> h.shown()[i] == placeholder_card(i as nat),
            h.wf(),
    {
        let mut articles: Vec<NewsCardData> = Vec::new();
        let mut i: u32 = 0;
        while i < 20
            invariant
                i <= 20,
                articles@.len() == i,
                forall|k: int| 0 <= k < i ==> articles@[k]@ == placeholder_card(k as nat),
            decreases 20 - i,
        {
            let n = u32_to_string(i);
            let mut title = "title".to_owned();
            title.append(n.as_str());
            let mut desc = "desc".to_owned();
            desc.append(n.as_str());
            let mut url = "https://example.com/".to_owned();
            url.append(n.as_str());
            articles.push(NewsCardData { title, desc, url });
            i = i + 1;
        }
        let api_key_initialized = !config.api_key.as_str().is_empty();
        Headlines { articles, config, api_key_initialized }
    }

    /// Which screen the next render pass shows.
    pub fn current_screen(&self) -> (s: Screen)
        ensures
            s == (if self.api_key_initialized {
                Screen::MainView
            } else {
                Screen::KeyEntry
            }),
    {
        if self.api_key_initialized {
            Screen::MainView
        } else {
            Screen::KeyEntry
        }
    }

    /// Commits a newly entered API key: stores it in the configuration
    /// and recomputes the key-entry gate. Persisting the configuration is
    /// the caller's step.
    pub fn commit_api_key(&mut self, key: String)
        ensures
            final(self).config.api_key@ == key@,
            final(self).config.dark_mode == old(self).config.dark_mode,
            final(self).config.selected_country == old(self).config.selected_country,
            final(self).api_key_initialized == (key@.len() > 0),
            final(self).articles == old(self).articles,
            final(self).wf(),
    {
        self.api_key_initialized = !key.as_str().is_empty();
        self.config.api_key = key;
    }

    /// Flips the displayed theme between dark and light.
    pub fn toggle_dark_mode(&mut self)
        ensures
            final(self).config.dark_mode == !old(self).config.dark_mode,
            final(self).config.api_key == old(self).config.api_key,
            final(self).config.selected_country == old(self).config.selected_country,
            final(self).api_key_initialized == old(self).api_key_initialized,
            final(self).articles == old(self).articles,
    {
        self.config.dark_mode = !self.config.dark_mode;
    }

    /// Selects the country whose headlines are shown.
    pub fn select_country(&mut self, country: Country)
        ensures
            final(self).config.selected_country == country,
            final(self).config.api_key == old(self).config.api_key,
            final(self).config.dark_mode == old(self).config.dark_mode,
            final(self).api_key_initialized == old(self).api_key_initialized,
            final(self).articles == old(self).articles,
    {
        self.config.selected_country = country;
    }

    /// Clears the displayed list, before a new fetch's results arrive.
    pub fn clear_articles(&mut self)
        ensures
            final(self).shown() == Seq::<CardModel>::empty(),
            final(self).config == old(self).config,
            final(self).api_key_initialized == old(self).api_key_initialized,
    {
        self.articles.clear();
        proof {
            assert(self.shown() =~= Seq::<CardModel>::empty());
        }
    }

    /// Drains at most one pending card from the channel into the
    /// displayed list: a non-blocking poll, once per frame tick.
    pub fn preload_articles(&mut self, rx: &mut FetchChannel)
        ensures
            drain_step(old(rx)@, old(self).shown(), final(rx)@, final(self).shown()),
            final(self).config == old(self).config,
            final(self).api_key_initialized == old(self).api_key_initialized,
    {
        match rx.try_recv() {
            Some(card) => {
                self.articles.push(card);
                proof {
                    assert(self.shown() =~= old(self).shown().push(old(rx)@[0]));
                }
            },
            None => {},
        }
    }
}

/// One draining step: either nothing was pending and nothing changes, or
/// exactly the oldest pending card moves to the end of the display list.
pub open spec fn drain_step(
    pending0: Seq<CardModel>,
    shown0: Seq<CardModel>,
    pending1: Seq<CardModel>,
    shown1: Seq<CardModel>,
) -> bool {
    if pending0.len() == 0 {
        pending1 == pending0 && shown1 == shown0
    } else {
        shown1 == shown0.push(pending0[0]) && pending1 == pending0.drop_first()
    }
}

/// `n` draining steps in a row.
pub open spec fn drains_to(
    pending0: Seq<CardModel>,
    shown0: Seq<CardModel>,
    n: nat,
    pending1: Seq<CardModel>,
    shown1: Seq<CardModel>,
) -> bool
    decreases n,
{
    if n == 0 {
        pending1 == pending0 && shown1 == shown0
    } else {
        exists|pmid: Seq<CardModel>, smid: Seq<CardModel>|
            drain_step(pending0, shown0, pmid, smid) && drains_to(
                pmid,
                smid,
                (n - 1) as nat,
                pending1,
                shown1,
            )
    }
}

/// After a fetch sent the cards `sent` in that order, draining once per
/// tick appends them to the display list in the same order, one per drain
/// call, never reordered or duplicated: after `n` drains the display grew
/// by exactly the first `n` cards, and the rest are still pending.
pub proof fn lemma_drain_in_order(
    sent: Seq<CardModel>,
    shown0: Seq<CardModel>,
    n: nat,
    pending1: Seq<CardModel>,
    shown1: Seq<CardModel>,
)
    requires
        n <= sent.len(),
        drains_to(sent, shown0, n, pending1, shown1),
    ensures
        shown1 == shown0 + sent.take(n as int),
        pending1 == sent.skip(n as int),
    decreases n,
{
    if n == 0 {
        assert(shown1 =~= shown0 + sent.take(0));
        assert(pending1 =~= sent.skip(0));
    } else {
        let (pmid, smid) = choose|pmid: Seq<CardModel>, smid: Seq<CardModel>|
            drain_step(sent, shown0, pmid, smid) && drains_to(
                pmid,
                smid,
                (n - 1) as nat,
                pending1,
                shown1,
            );
        lemma_drain_in_order(pmid, smid, (n - 1) as nat, pending1, shown1);
        assert(shown1 =~= shown0 + sent.take(n as int));
        assert(pending1 =~= sent.skip(n as int));
    }
}

/// Toggling dark/light mode twice returns the displayed theme flag to its
/// original value: the states before, between and after two toggles
/// relate as `toggle_dark_mode` ensures, and the flag comes back.
pub proof fn lemma_toggle_twice_identity(first: Headlines, second: Headlines, third: Headlines)
    requires
        second.config.dark_mode == !first.config.dark_mode,
        third.config.dark_mode == !second.config.dark_mode,
    ensures
        third.config.dark_mode == first.config.dark_mode,
{
}

} // verus!
