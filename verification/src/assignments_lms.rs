use vstd::prelude::*;
use vstd::string::StringExecFns;
use crate::decimal::{
    all_digits, decimal, decimal_reads_back, digits_value, u64_to_decimal,
};
use crate::errors::{Error, ErrorModel};
use crate::html::{Element, ElementModel, elements_view, scraped, select_elements};
use crate::login::{matches_view, service_url, spec_service_url, SELECTOR_REFUSED};
use crate::text::{concat_all, concat_strings, spec_trim, trim};
use crate::types::Service;

verus! {

/// An assignment as its page on the LMS shows it.
pub struct Assignment {
    pub id: String,
    pub opened_date: String,
    pub due_date: String,
    /// The files handed in: (address, link text).
    pub file_url: Vec<(String, String)>,
}

/// An assignment with its texts taken as sequences of characters.
pub struct AssignmentModel {
    pub id: Seq<char>,
    pub opened_date: Seq<char>,
    pub due_date: Seq<char>,
    pub file_url: Seq<(Seq<char>, Seq<char>)>,
}

impl View for Assignment {
    type V = AssignmentModel;

    open spec fn view(&self) -> AssignmentModel {
        AssignmentModel {
            id: self.id@,
            opened_date: self.opened_date@,
            due_date: self.due_date@,
            file_url: self.file_url.deep_view(),
        }
    }
}

impl Assignment {
    pub fn new(id: String, opened_date: String, due_date: String, file_url: Vec<(String, String)>) -> (a: Self)
        ensures
            a@ == (AssignmentModel {
                id: id@,
                opened_date: opened_date@,
                due_date: due_date@,
                file_url: file_url.deep_view(),
            }),
    {
        Assignment { id, opened_date, due_date, file_url }
    }
}

/// How far back the calendar is asked for events: two weeks, in seconds.
pub const LOOKBACK_SECS: u64 = 1209600;

/// The links to the files handed in for an assignment.
pub const FILE_LINK_SELECTOR: &'static str = ".fileuploadsubmission a";

/// The blocks that show when an assignment opens and when it is due.
pub const DATES_SELECTOR: &'static str = "[data-region='activity-dates'] div";

/// What an assignment page shows where a date is missing.
pub const NOT_FOUND: &'static str = "Not Found";

/// The address that answers calendar requests for the given session key.
pub fn events_url(service: &Service, sesskey: &str) -> (url: String)
    ensures
        url@ == spec_service_url(
            *service,
            "/lib/ajax/service.php?sesskey="@ + sesskey@
                + "&info=core_calendar_get_action_events_by_timesort"@,
        ),
{
    service_url(service, "/lib/ajax/service.php?sesskey=").concat(sesskey).concat(
        "&info=core_calendar_get_action_events_by_timesort",
    )
}

/// The earliest time of the events asked for: two weeks before `now_secs`.
pub fn timesort_from(now_secs: u64) -> (t: u64)
    requires
        now_secs >= LOOKBACK_SECS,
    ensures
        t == now_secs - LOOKBACK_SECS,
{
    now_secs - LOOKBACK_SECS
}

/// The calendar request, as JSON text.
pub open spec fn spec_events_request(timesortfrom: nat) -> Seq<char> {
    "[{\"index\":0,\"methodname\":\"core_calendar_get_action_events_by_timesort\",\"args\":{\"limitnum\":26,\"timesortfrom\":"@
        + decimal(timesortfrom) + ",\"limittononsuspendedevents\":true}}]"@
}

/// The calendar request for the events from `timesortfrom` on (at most 26, of courses the
/// user is not suspended from), as JSON text.
pub fn events_request_body(timesortfrom: u64) -> (body: String)
    ensures
        body@ == spec_events_request(timesortfrom as nat),
{
    let n = u64_to_decimal(timesortfrom);
    String::from_str(
        "[{\"index\":0,\"methodname\":\"core_calendar_get_action_events_by_timesort\",\"args\":{\"limitnum\":26,\"timesortfrom\":",
    ).concat(n.as_str()).concat(",\"limittononsuspendedevents\":true}}]")
}

/// The page of an assignment.
pub fn assignment_view_url(service: &Service, id: &str) -> (url: String)
    ensures
        url@ == spec_service_url(*service, "/mod/assign/view.php?id="@ + id@),
{
    service_url(service, "/mod/assign/view.php?id=").concat(id)
}

/// The file links among the matched elements: those with an address, as (address, all of
/// their text).
pub open spec fn spec_file_links(found: Seq<ElementModel>) -> Seq<(Seq<char>, Seq<char>)>
    decreases found.len(),
{
    if found.len() == 0 {
        Seq::empty()
    } else {
        let rest = spec_file_links(found.drop_last());
        match found.last().0 {
            Some(href) => rest.push((href, concat_all(found.last().1))),
            None => rest,
        }
    }
}

/// The dates among the matched blocks: the third text of each block that has one, trimmed
/// (the first two are the label).
pub open spec fn spec_dates(found: Seq<ElementModel>) -> Seq<Seq<char>>
    decreases found.len(),
{
    if found.len() == 0 {
        Seq::empty()
    } else {
        let rest = spec_dates(found.drop_last());
        if found.last().1.len() > 2 {
            rest.push(spec_trim(found.last().1[2]))
        } else {
            rest
        }
    }
}

/// The `i`-th date, or the text for a missing date.
pub open spec fn date_or_not_found(dates: Seq<Seq<char>>, i: int) -> Seq<char> {
    if 0 <= i < dates.len() {
        dates[i]
    } else {
        NOT_FOUND@
    }
}

/// The assignment that the matched file links and date blocks give.
pub open spec fn spec_assignment_matches(
    id: Seq<char>,
    links: Option<Seq<ElementModel>>,
    blocks: Option<Seq<ElementModel>>,
) -> Result<AssignmentModel, ErrorModel> {
    match links {
        None => Err(ErrorModel::InvalidFormat(SELECTOR_REFUSED@)),
        Some(links) => match blocks {
            None => Err(ErrorModel::InvalidFormat(SELECTOR_REFUSED@)),
            Some(blocks) => {
                let dates = spec_dates(blocks);
                Ok(
                    AssignmentModel {
                        id,
                        opened_date: date_or_not_found(dates, 0),
                        due_date: date_or_not_found(dates, 1),
                        file_url: spec_file_links(links),
                    },
                )
            },
        },
    }
}

/// What the page of an assignment gives.
pub open spec fn spec_assignment(id: Seq<char>, page: Seq<char>) -> Result<AssignmentModel, ErrorModel> {
    spec_assignment_matches(
        id,
        scraped(page, FILE_LINK_SELECTOR@, "href"@),
        scraped(page, DATES_SELECTOR@, "href"@),
    )
}

fn file_links(found: &Vec<Element>) -> (links: Vec<(String, String)>)
    ensures
        links.deep_view() == spec_file_links(elements_view(found@)),
{
    let ghost all = elements_view(found@);
    let mut links: Vec<(String, String)> = Vec::new();
    let mut i: usize = 0;
    while i < found.len()
        invariant
            i <= found.len(),
            all == elements_view(found@),
            links.deep_view() == spec_file_links(all.take(i as int)),
        decreases found.len() - i,
    {
        assert(all.take(i + 1).drop_last() =~= all.take(i as int));
        assert(all.take(i + 1).last() == found@[i as int]@);
        match &found[i].attribute {
            Some(href) => {
                let text = concat_strings(&found[i].texts);
                links.push((href.clone(), text));
                assert(links.deep_view() =~= spec_file_links(all.take(i + 1)));
            },
            None => {},
        }
        i = i + 1;
    }
    assert(all.take(found.len() as int) =~= all);
    links
}

fn dates(found: &Vec<Element>) -> (dates: Vec<String>)
    ensures
        dates.deep_view() == spec_dates(elements_view(found@)),
{
    let ghost all = elements_view(found@);
    let mut dates: Vec<String> = Vec::new();
    let mut i: usize = 0;
    while i < found.len()
        invariant
            i <= found.len(),
            all == elements_view(found@),
            dates.deep_view() == spec_dates(all.take(i as int)),
        decreases found.len() - i,
    {
        assert(all.take(i + 1).drop_last() =~= all.take(i as int));
        assert(all.take(i + 1).last() == found@[i as int]@);
        if found[i].texts.len() > 2 {
            let d = trim(found[i].texts[2].as_str());
            dates.push(d);
            assert(dates.deep_view() =~= spec_dates(all.take(i + 1)));
        }
        i = i + 1;
    }
    assert(all.take(found.len() as int) =~= all);
    dates
}

fn date_at(dates: &Vec<String>, i: usize) -> (d: String)
    ensures
        d@ == date_or_not_found(dates.deep_view(), i as int),
{
    if i < dates.len() {
        dates[i].clone()
    } else {
        String::from_str(NOT_FOUND)
    }
}

/// Builds an assignment from the file links (with their `href`) and the date blocks found
/// on its page.
pub fn assignment_from_matches(
    id: String,
    links: Option<Vec<Element>>,
    blocks: Option<Vec<Element>>,
) -> (r: Result<Assignment, Error>)
    ensures
        match r {
            Ok(a) => spec_assignment_matches(id@, matches_view(links), matches_view(blocks)) == Ok::<
                AssignmentModel,
                ErrorModel,
            >(a@),
            Err(e) => spec_assignment_matches(id@, matches_view(links), matches_view(blocks)) == Err::<
                AssignmentModel,
                ErrorModel,
            >(e@),
        },
{
    let file_url = match links {
        None => {
            return Err(Error::InvalidFormat(String::from_str(SELECTOR_REFUSED)));
        },
        Some(found) => file_links(&found),
    };
    let found_dates = match blocks {
        None => {
            return Err(Error::InvalidFormat(String::from_str(SELECTOR_REFUSED)));
        },
        Some(found) => dates(&found),
    };
    let opened = date_at(&found_dates, 0);
    let due = date_at(&found_dates, 1);
    Ok(Assignment::new(id, opened, due, file_url))
}

/// Reads an assignment from its page: its dates and the files handed in.
pub fn assignment_from_page(id: String, page: &str) -> (r: Result<Assignment, Error>)
    ensures
        match r {
            Ok(a) => spec_assignment(id@, page@) == Ok::<AssignmentModel, ErrorModel>(a@),
            Err(e) => spec_assignment(id@, page@) == Err::<AssignmentModel, ErrorModel>(e@),
        },
{
    let links = select_elements(page, FILE_LINK_SELECTOR, "href");
    let blocks = select_elements(page, DATES_SELECTOR, "href");
    assignment_from_matches(id, links, blocks)
}

/// A page without date blocks gives an assignment whose opening and due dates both read
/// "Not Found".
pub proof fn missing_dates_read_not_found(id: Seq<char>, page: Seq<char>)
    requires
        scraped(page, FILE_LINK_SELECTOR@, "href"@) is Some,
        scraped(page, DATES_SELECTOR@, "href"@) == Some(Seq::<ElementModel>::empty()),
    ensures
        spec_assignment(id, page) matches Ok(a) && a.id == id && a.opened_date == NOT_FOUND@
            && a.due_date == NOT_FOUND@,
{
}

/// The file list has one entry for each matched link that has an address, in the order of
/// the matches, holding that address and all of the link's text.
pub proof fn file_links_keep_every_addressed_link(found: Seq<ElementModel>)
    ensures
        spec_file_links(found) == found.filter(|e: ElementModel| e.0 is Some).map_values(
            |e: ElementModel| (e.0->0, concat_all(e.1)),
        ),
    decreases found.len(),
{
    reveal_with_fuel(Seq::<_>::filter, 1);
    if found.len() > 0 {
        file_links_keep_every_addressed_link(found.drop_last());
        let f = |e: ElementModel| (e.0->0, concat_all(e.1));
        let p = |e: ElementModel| e.0 is Some;
        let rest = found.drop_last().filter(p);
        if p(found.last()) {
            assert(rest.push(found.last()).map_values(f) =~= rest.map_values(f).push(f(found.last())));
        }
    } else {
        assert(found.filter(|e: ElementModel| e.0 is Some) =~= Seq::<ElementModel>::empty());
        assert(spec_file_links(found) =~= Seq::<(Seq<char>, Seq<char>)>::empty());
    }
}

/// The dates are, in the order of the matched blocks, the trimmed third text of each block
/// that has at least three texts.
pub proof fn dates_keep_every_dated_block(found: Seq<ElementModel>)
    ensures
        spec_dates(found) == found.filter(|e: ElementModel| e.1.len() > 2).map_values(
            |e: ElementModel| spec_trim(e.1[2]),
        ),
    decreases found.len(),
{
    reveal_with_fuel(Seq::<_>::filter, 1);
    if found.len() > 0 {
        dates_keep_every_dated_block(found.drop_last());
        let f = |e: ElementModel| spec_trim(e.1[2]);
        let p = |e: ElementModel| e.1.len() > 2;
        let rest = found.drop_last().filter(p);
        if p(found.last()) {
            assert(rest.push(found.last()).map_values(f) =~= rest.map_values(f).push(f(found.last())));
        }
    } else {
        assert(found.filter(|e: ElementModel| e.1.len() > 2) =~= Seq::<ElementModel>::empty());
        assert(spec_dates(found) =~= Seq::<Seq<char>>::empty());
    }
}

/// The calendar request asks for the events from the given time on: the number in its
/// `timesortfrom` field is a string of digits that reads back as that time.
pub proof fn events_request_reads_back(timesortfrom: u64)
    ensures
        ({
            let body = spec_events_request(timesortfrom as nat);
            let prefix = "[{\"index\":0,\"methodname\":\"core_calendar_get_action_events_by_timesort\",\"args\":{\"limitnum\":26,\"timesortfrom\":"@;
            let suffix = ",\"limittononsuspendedevents\":true}}]"@;
            &&& body.subrange(0, prefix.len() as int) == prefix
            &&& body.subrange(body.len() - suffix.len(), body.len() as int) == suffix
            &&& all_digits(body.subrange(prefix.len() as int, body.len() - suffix.len()))
            &&& digits_value(body.subrange(prefix.len() as int, body.len() - suffix.len()))
                == timesortfrom
        }),
{
    let prefix = "[{\"index\":0,\"methodname\":\"core_calendar_get_action_events_by_timesort\",\"args\":{\"limitnum\":26,\"timesortfrom\":"@;
    let suffix = ",\"limittononsuspendedevents\":true}}]"@;
    let d = decimal(timesortfrom as nat);
    let body = spec_events_request(timesortfrom as nat);
    assert(body == prefix + d + suffix);
    assert(body.subrange(0, prefix.len() as int) =~= prefix);
    assert(body.subrange(body.len() - suffix.len(), body.len() as int) =~= suffix);
    assert(body.subrange(prefix.len() as int, body.len() - suffix.len()) =~= d);
    decimal_reads_back(timesortfrom as nat);
}

} // verus!
