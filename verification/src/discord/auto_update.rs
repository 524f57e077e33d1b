//! The periodic update run: for each tracked manga, read its page, and where the page shows
//! a newer chapter, store it and announce it. The run decides; the caller performs the
//! actions and reports back what came of each.
use crate::clock::{utc_now, Timestamp};
use crate::discord::domain::{AppError, MangaTracking, ScrapeResult};
use vstd::prelude::*;

verus! {

/// What the caller is to do next.
#[derive(Debug)]
pub enum UpdateAction {
    /// List every tracked manga.
    ListAll,
    /// Read the page at this link.
    Scrape(String),
    /// Store this manga's newer state.
    UpdateLatest(MangaTracking),
    /// Announce this manga's newer state.
    Notify(MangaTracking),
    /// The run is over, with this result.
    Finish(Result<(), AppError>),
}

/// What came of the action the caller performed.
#[derive(Debug)]
pub enum UpdateEvent {
    Listed(Result<Vec<MangaTracking>, AppError>),
    Scraped(Result<ScrapeResult, AppError>),
    Updated(Result<(), AppError>),
    Notified(Result<(), AppError>),
}

/// Where the run stands.
#[derive(Debug)]
pub enum UpdatePhase {
    /// Waiting for the list of tracked manga.
    Listing,
    /// Waiting for the page of `mangas[next]`.
    Scraping,
    /// Waiting for the store to take this newer state of `mangas[next]`.
    Updating(MangaTracking),
    /// Waiting for the announcement of this newer state of `mangas[next]`.
    Notifying(MangaTracking),
    /// Over.
    Finished,
}

/// A periodic update run in progress.
#[derive(Debug)]
pub struct UpdateRun {
    /// The tracked manga, as listed.
    pub mangas: Vec<MangaTracking>,
    /// The manga being handled; those before it are done.
    pub next: usize,
    pub phase: UpdatePhase,
}

/// The newer state of `old` that a page shows, stamped `now`: title, chapter, chapter link
/// and cover from the page; link and creation time kept.
pub open spec fn refreshed(old: MangaTracking, page: ScrapeResult, now: crate::clock::Timestamp) -> MangaTracking {
    MangaTracking {
        title: page.title,
        url: old.url,
        latest_chapter: page.latest_chapter,
        latest_chapter_url: page.latest_chapter_url,
        image_url: page.image_url,
        created_at: old.created_at,
        updated_at: now,
    }
}

/// Whether a page shows a chapter newer than the one stored.
pub open spec fn is_newer(old: MangaTracking, page: ScrapeResult) -> bool {
    page.latest_chapter > old.latest_chapter
}

impl UpdateRun {
    /// The run's invariant: the position is within the list, and a manga is in hand exactly
    /// in the phases that handle one.
    pub open spec fn wf(&self) -> bool {
        &&& self.next <= self.mangas.len()
        &&& match self.phase {
            UpdatePhase::Scraping | UpdatePhase::Updating(_) | UpdatePhase::Notifying(_) => self.next
                < self.mangas.len(),
            _ => true,
        }
    }

    /// The steps the run can still take once listed: three per manga left (read, store,
    /// announce), less those already taken for the manga in hand.
    pub open spec fn remaining_work(&self) -> nat {
        let left = (self.mangas.len() - self.next) as int;
        (match self.phase {
            UpdatePhase::Scraping => 3 * left,
            UpdatePhase::Updating(_) => 3 * left - 1,
            UpdatePhase::Notifying(_) => 3 * left - 2,
            _ => 0,
        }) as nat
    }

    /// Whether `event` answers the action the run asked for last.
    pub open spec fn expects(&self, event: UpdateEvent) -> bool {
        match (self.phase, event) {
            (UpdatePhase::Listing, UpdateEvent::Listed(_)) => true,
            (UpdatePhase::Scraping, UpdateEvent::Scraped(_)) => true,
            (UpdatePhase::Updating(_), UpdateEvent::Updated(_)) => true,
            (UpdatePhase::Notifying(_), UpdateEvent::Notified(_)) => true,
            _ => false,
        }
    }

    /// Whether `event` answers the action the run asked for last.
    pub fn accepts(&self, event: &UpdateEvent) -> (r: bool)
        ensures
            r == self.expects(*event),
    {
        match (&self.phase, event) {
            (UpdatePhase::Listing, UpdateEvent::Listed(_)) => true,
            (UpdatePhase::Scraping, UpdateEvent::Scraped(_)) => true,
            (UpdatePhase::Updating(_), UpdateEvent::Updated(_)) => true,
            (UpdatePhase::Notifying(_), UpdateEvent::Notified(_)) => true,
            _ => false,
        }
    }

    /// A run that begins by listing the tracked manga.
    pub fn start() -> (r: (UpdateRun, UpdateAction))
        ensures
            r.0.wf(),
            r.0.mangas@.len() == 0,
            r.0.phase is Listing,
            r.1 is ListAll,
    {
        (UpdateRun { mangas: Vec::new(), next: 0, phase: UpdatePhase::Listing }, UpdateAction::ListAll)
    }

    /// Moves to `mangas[next]`: read its page, or finish successfully when none is left.
    fn advance(mangas: Vec<MangaTracking>, next: usize) -> (r: (UpdateRun, UpdateAction))
        requires
            next <= mangas.len(),
        ensures
            r.0.wf(),
            r.0.mangas == mangas,
            r.0.next == next,
            next < mangas.len() ==> r.0.phase is Scraping && r.1 == UpdateAction::Scrape(
                mangas@[next as int].url,
            ),
            next == mangas.len() ==> r.0.phase is Finished && r.1 == UpdateAction::Finish(Ok(())),
    {
        if next < mangas.len() {
            let url = mangas[next].url.clone();
            (UpdateRun { mangas, next, phase: UpdatePhase::Scraping }, UpdateAction::Scrape(url))
        } else {
            (UpdateRun { mangas, next, phase: UpdatePhase::Finished }, UpdateAction::Finish(Ok(())))
        }
    }

    /// One step of the run: takes what came of the last action and gives the next one, as
    /// `step_at` gives it at the time the clock reads now.
    ///
    /// A failed listing, storing or announcing ends the run with that error; a page that
    /// cannot be read, or that shows no newer chapter, skips its manga; a newer chapter is
    /// stored, then announced, then the next manga follows.
    pub fn step(self, event: UpdateEvent) -> (r: (UpdateRun, UpdateAction))
        requires
            self.wf(),
            self.expects(event),
        ensures
            r.0.wf(),
            !(self.phase is Listing) ==> r.0.remaining_work() < self.remaining_work(),
            r.0.remaining_work() == 0 <==> r.0.phase is Finished,
            r.0.phase is Finished <==> r.1 is Finish,
            self.phase is Listing ==> (event matches UpdateEvent::Listed(Err(e)) ==> r.0.phase is Finished
                && r.1 == UpdateAction::Finish(Err(e))),
            self.phase is Listing ==> (event matches UpdateEvent::Listed(Ok(list)) ==> {
                &&& r.0.mangas == list
                &&& r.0.next == 0
                &&& list.len() > 0 ==> r.0.phase is Scraping && r.1 == UpdateAction::Scrape(
                    list@[0].url,
                )
                &&& list.len() == 0 ==> r.0.phase is Finished && r.1 == UpdateAction::Finish(
                    Ok(()),
                )
            }),
            self.phase is Scraping ==> (event matches UpdateEvent::Scraped(page) ==> {
                let old = self.mangas@[self.next as int];
                &&& r.0.mangas == self.mangas
                &&& if page matches Ok(p) && is_newer(old, p) {
                    &&& r.0.next == self.next
                    &&& r.1 matches UpdateAction::UpdateLatest(u)
                    &&& u == refreshed(old, page->Ok_0, u.updated_at)
                    &&& u.title == page->Ok_0.title
                    &&& u.latest_chapter == page->Ok_0.latest_chapter
                    &&& u.latest_chapter_url == page->Ok_0.latest_chapter_url
                    &&& u.image_url == page->Ok_0.image_url
                    &&& u.url == old.url
                    &&& u.created_at == old.created_at
                    &&& u.updated_at.nanos < 2_000_000_000
                    &&& r.0.phase == UpdatePhase::Updating(u)
                } else {
                    &&& r.0.next == self.next + 1
                    &&& r.0.next < self.mangas.len() ==> r.0.phase is Scraping && r.1
                        == UpdateAction::Scrape(self.mangas@[r.0.next as int].url)
                    &&& r.0.next == self.mangas.len() ==> r.0.phase is Finished && r.1
                        == UpdateAction::Finish(Ok(()))
                }
            }),
            self.phase matches UpdatePhase::Updating(u) ==> (event matches UpdateEvent::Updated(
                Err(e),
            ) ==> r.0.phase is Finished && r.1 == UpdateAction::Finish(Err(e))),
            self.phase matches UpdatePhase::Updating(u) ==> (event matches UpdateEvent::Updated(
                Ok(()),
            ) ==> {
                &&& r.0.mangas == self.mangas
                &&& r.0.next == self.next
                &&& r.0.phase == UpdatePhase::Notifying(u)
                &&& r.1 == UpdateAction::Notify(u)
            }),
            self.phase matches UpdatePhase::Notifying(u) ==> (event matches UpdateEvent::Notified(
                Err(e),
            ) ==> r.0.phase is Finished && r.1 == UpdateAction::Finish(Err(e))),
            self.phase matches UpdatePhase::Notifying(u) ==> (event matches UpdateEvent::Notified(
                Ok(()),
            ) ==> {
                &&& r.0.mangas == self.mangas
                &&& r.0.next == self.next + 1
                &&& r.0.next < self.mangas.len() ==> r.0.phase is Scraping && r.1
                    == UpdateAction::Scrape(self.mangas@[r.0.next as int].url)
                &&& r.0.next == self.mangas.len() ==> r.0.phase is Finished && r.1
                    == UpdateAction::Finish(Ok(()))
            }),
    {
        let now = utc_now();
        self.step_at(event, now)
    }

    /// One step of the run at the time `now`: takes what came of the last action and gives
    /// the next one; a newer state is stamped `now`.
    ///
    /// A failed listing, storing or announcing ends the run with that error; a page that
    /// cannot be read, or that shows no newer chapter, skips its manga; a newer chapter is
    /// stored, then announced, then the next manga follows.
    pub fn step_at(self, event: UpdateEvent, now: Timestamp) -> (r: (UpdateRun, UpdateAction))
        requires
            self.wf(),
            self.expects(event),
        ensures
            r.0.wf(),
            !(self.phase is Listing) ==> r.0.remaining_work() < self.remaining_work(),
            r.0.remaining_work() == 0 <==> r.0.phase is Finished,
            r.0.phase is Finished <==> r.1 is Finish,
            self.phase is Listing ==> (event matches UpdateEvent::Listed(Err(e)) ==> r.0.phase is Finished
                && r.1 == UpdateAction::Finish(Err(e))),
            self.phase is Listing ==> (event matches UpdateEvent::Listed(Ok(list)) ==> {
                &&& r.0.mangas == list
                &&& r.0.next == 0
                &&& list.len() > 0 ==> r.0.phase is Scraping && r.1 == UpdateAction::Scrape(
                    list@[0].url,
                )
                &&& list.len() == 0 ==> r.0.phase is Finished && r.1 == UpdateAction::Finish(
                    Ok(()),
                )
            }),
            self.phase is Scraping ==> (event matches UpdateEvent::Scraped(page) ==> {
                let old = self.mangas@[self.next as int];
                &&& r.0.mangas == self.mangas
                &&& if page matches Ok(p) && is_newer(old, p) {
                    &&& r.0.next == self.next
                    &&& r.1 matches UpdateAction::UpdateLatest(u)
                    &&& u == refreshed(old, page->Ok_0, now)
                    &&& u.title == page->Ok_0.title
                    &&& u.latest_chapter == page->Ok_0.latest_chapter
                    &&& u.latest_chapter_url == page->Ok_0.latest_chapter_url
                    &&& u.image_url == page->Ok_0.image_url
                    &&& u.url == old.url
                    &&& u.created_at == old.created_at
                    &&& u.updated_at == now
                    &&& r.0.phase == UpdatePhase::Updating(u)
                } else {
                    &&& r.0.next == self.next + 1
                    &&& r.0.next < self.mangas.len() ==> r.0.phase is Scraping && r.1
                        == UpdateAction::Scrape(self.mangas@[r.0.next as int].url)
                    &&& r.0.next == self.mangas.len() ==> r.0.phase is Finished && r.1
                        == UpdateAction::Finish(Ok(()))
                }
            }),
            self.phase matches UpdatePhase::Updating(u) ==> (event matches UpdateEvent::Updated(
                Err(e),
            ) ==> r.0.phase is Finished && r.1 == UpdateAction::Finish(Err(e))),
            self.phase matches UpdatePhase::Updating(u) ==> (event matches UpdateEvent::Updated(
                Ok(()),
            ) ==> {
                &&& r.0.mangas == self.mangas
                &&& r.0.next == self.next
                &&& r.0.phase == UpdatePhase::Notifying(u)
                &&& r.1 == UpdateAction::Notify(u)
            }),
            self.phase matches UpdatePhase::Notifying(u) ==> (event matches UpdateEvent::Notified(
                Err(e),
            ) ==> r.0.phase is Finished && r.1 == UpdateAction::Finish(Err(e))),
            self.phase matches UpdatePhase::Notifying(u) ==> (event matches UpdateEvent::Notified(
                Ok(()),
            ) ==> {
                &&& r.0.mangas == self.mangas
                &&& r.0.next == self.next + 1
                &&& r.0.next < self.mangas.len() ==> r.0.phase is Scraping && r.1
                    == UpdateAction::Scrape(self.mangas@[r.0.next as int].url)
                &&& r.0.next == self.mangas.len() ==> r.0.phase is Finished && r.1
                    == UpdateAction::Finish(Ok(()))
            }),
    {
        let UpdateRun { mangas, next, phase } = self;
        match (phase, event) {
            (UpdatePhase::Listing, UpdateEvent::Listed(Err(e))) => {
                (UpdateRun { mangas, next, phase: UpdatePhase::Finished }, UpdateAction::Finish(Err(e)))
            },
            (UpdatePhase::Listing, UpdateEvent::Listed(Ok(list))) => Self::advance(list, 0),
            (UpdatePhase::Scraping, UpdateEvent::Scraped(Err(_))) => Self::advance(mangas, next + 1),
            (UpdatePhase::Scraping, UpdateEvent::Scraped(Ok(page))) => {
                if page.latest_chapter <= mangas[next].latest_chapter {
                    Self::advance(mangas, next + 1)
                } else {
                    let old = &mangas[next];
                    let updated = MangaTracking {
                        title: page.title,
                        url: old.url.clone(),
                        latest_chapter: page.latest_chapter,
                        latest_chapter_url: page.latest_chapter_url,
                        image_url: page.image_url,
                        created_at: old.created_at,
                        updated_at: now,
                    };
                    let action = UpdateAction::UpdateLatest(updated.duplicate());
                    (UpdateRun { mangas, next, phase: UpdatePhase::Updating(updated) }, action)
                }
            },
            (UpdatePhase::Updating(_), UpdateEvent::Updated(Err(e))) => {
                (UpdateRun { mangas, next, phase: UpdatePhase::Finished }, UpdateAction::Finish(Err(e)))
            },
            (UpdatePhase::Updating(u), UpdateEvent::Updated(Ok(()))) => {
                let action = UpdateAction::Notify(u.duplicate());
                (UpdateRun { mangas, next, phase: UpdatePhase::Notifying(u) }, action)
            },
            (UpdatePhase::Notifying(_), UpdateEvent::Notified(Err(e))) => {
                (UpdateRun { mangas, next, phase: UpdatePhase::Finished }, UpdateAction::Finish(Err(e)))
            },
            (UpdatePhase::Notifying(_), UpdateEvent::Notified(Ok(()))) => Self::advance(mangas, next + 1),
            _ => {
                proof {
                    assert(false);
                }
                (UpdateRun { mangas, next, phase: UpdatePhase::Finished }, UpdateAction::Finish(Ok(())))
            },
        }
    }
}


/// A stored chapter only ever moves forward: the newer state that a run stores for a manga
/// has a later chapter, and keeps the manga's link and creation time.
pub proof fn law_refresh_moves_forward(old: MangaTracking, page: ScrapeResult, now: crate::clock::Timestamp)
    requires
        is_newer(old, page),
    ensures
        refreshed(old, page, now).latest_chapter > old.latest_chapter,
        refreshed(old, page, now).url == old.url,
        refreshed(old, page, now).created_at == old.created_at,
{
}

/// The newer state that a run stores comes from the page: its title, chapter number,
/// chapter link and cover are the page's, stamped with the time of the run; only the
/// manga's own link and creation time are kept from before.
pub proof fn law_refresh_takes_the_page(old: MangaTracking, page: ScrapeResult, now: crate::clock::Timestamp)
    ensures
        refreshed(old, page, now).title == page.title,
        refreshed(old, page, now).latest_chapter == page.latest_chapter,
        refreshed(old, page, now).latest_chapter_url == page.latest_chapter_url,
        refreshed(old, page, now).image_url == page.image_url,
        refreshed(old, page, now).url == old.url,
        refreshed(old, page, now).created_at == old.created_at,
        refreshed(old, page, now).updated_at == now,
{
}

} // verus!
