//! The identifier resolution chain: lookup services are asked in a fixed order
//! of priority, and the first that knows the key answers for all.
//!
//! The services themselves are reached by the caller. The chain decides whom
//! to ask next and what the answers so far amount to; a service that failed
//! is reported to the chain as one that did not know the key.

use crate::media::MediaSource;
use vstd::prelude::*;

verus! {

/// The catalogs that are asked for a book, by priority.
pub open spec fn book_catalog_chain() -> Seq<MediaSource> {
    seq![MediaSource::GoogleBooks, MediaSource::Openlibrary]
}

/// The first answer that names an identifier, with the service at the same
/// position. Answers beyond the last service are not looked at.
pub open spec fn first_hit(services: Seq<MediaSource>, answers: Seq<Option<String>>) -> Option<
    (String, MediaSource),
>
    decreases answers.len(),
{
    if answers.len() == 0 || services.len() == 0 {
        None
    } else {
        match answers[0] {
            Some(id) => Some((id, services[0])),
            None => first_hit(services.drop_first(), answers.drop_first()),
        }
    }
}

/// What the chain does next.
#[derive(Clone, Debug, PartialEq, Eq)]
pub enum LookupStep {
    /// Ask this service for the key, and come back with its answer.
    Ask(MediaSource),
    /// The chain has ended, with the identifier and the service that knew it,
    /// or with nothing.
    Done(Option<(String, MediaSource)>),
}

/// What the chain does after `answers`, the answers of the first services in
/// order: it ends as soon as one named an identifier, asks the next service
/// while there is one, and ends with nothing when all have been asked.
pub open spec fn chain_step(services: Seq<MediaSource>, answers: Seq<Option<String>>) -> LookupStep {
    match first_hit(services, answers) {
        Some(hit) => LookupStep::Done(Some(hit)),
        None => if answers.len() < services.len() {
            LookupStep::Ask(services[answers.len() as int])
        } else {
            LookupStep::Done(None)
        },
    }
}

/// `first_hit` finds the answer at the least position that names an
/// identifier, and finds nothing exactly when no answer within reach of the
/// services names one.
pub proof fn lemma_first_hit(services: Seq<MediaSource>, answers: Seq<Option<String>>)
    ensures
        match first_hit(services, answers) {
            Some((id, tag)) => exists|i: int|
                {
                    &&& 0 <= i < answers.len()
                    &&& i < services.len()
                    &&& #[trigger] answers[i] == Some(id)
                    &&& services[i] == tag
                    &&& forall|j: int| 0 <= j < i ==> (#[trigger] answers[j]) is None
                },
            None => forall|i: int|
                0 <= i < answers.len() && i < services.len() ==> (#[trigger] answers[i]) is None,
        },
    decreases answers.len(),
{
    if answers.len() == 0 || services.len() == 0 {
    } else {
        match answers[0] {
            Some(id) => {
                assert(answers[0] == Some(id));
            },
            None => {
                let rest_services = services.drop_first();
                let rest = answers.drop_first();
                lemma_first_hit(rest_services, rest);
                match first_hit(rest_services, rest) {
                    Some((id, tag)) => {
                        let i = choose|i: int|
                            {
                                &&& 0 <= i < rest.len()
                                &&& i < rest_services.len()
                                &&& #[trigger] rest[i] == Some(id)
                                &&& rest_services[i] == tag
                                &&& forall|j: int| 0 <= j < i ==> (#[trigger] rest[j]) is None
                            };
                        assert(answers[i + 1] == Some(id));
                        assert forall|j: int| 0 <= j < i + 1 implies (#[trigger] answers[j]) is None by {
                            if j > 0 {
                                assert(answers[j] == rest[j - 1]);
                            }
                        }
                    },
                    None => {
                        assert forall|i: int|
                            0 <= i < answers.len() && i < services.len() implies (
                        #[trigger] answers[i]) is None by {
                            if i > 0 {
                                assert(answers[i] == rest[i - 1]);
                            }
                        }
                    },
                }
            },
        }
    }
}

/// An answer from a service behind the one that knew the key changes nothing:
/// once a service has named an identifier, that is the chain's result.
pub proof fn lemma_first_hit_is_final(
    services: Seq<MediaSource>,
    answers: Seq<Option<String>>,
    later: Option<String>,
)
    requires
        first_hit(services, answers) is Some,
    ensures
        first_hit(services, answers.push(later)) == first_hit(services, answers),
    decreases answers.len(),
{
    if answers.len() == 0 || services.len() == 0 {
    } else {
        assert(answers.push(later)[0] == answers[0]);
        match answers[0] {
            Some(_) => {},
            None => {
                assert(answers.push(later).drop_first() =~= answers.drop_first().push(later));
                lemma_first_hit_is_final(services.drop_first(), answers.drop_first(), later);
            },
        }
    }
}

/// Resolves a key from what the services answered: `answers[i]` is the answer
/// of `services[i]`, absent where that service did not know the key.
pub fn resolve(services: &Vec<MediaSource>, answers: &Vec<Option<String>>) -> (hit: Option<
    (String, MediaSource),
>)
    ensures
        hit == first_hit(services@, answers@),
{
    let mut i: usize = 0;
    proof {
        assert(services@.subrange(0, services.len() as int) =~= services@);
        assert(answers@.subrange(0, answers.len() as int) =~= answers@);
    }
    while i < answers.len() && i < services.len()
        invariant
            i <= answers.len(),
            i <= services.len(),
            first_hit(services@, answers@) == first_hit(
                services@.subrange(i as int, services.len() as int),
                answers@.subrange(i as int, answers.len() as int),
            ),
        decreases answers.len() - i,
    {
        proof {
            let s = services@.subrange(i as int, services.len() as int);
            let a = answers@.subrange(i as int, answers.len() as int);
            assert(s.drop_first() =~= services@.subrange(i + 1, services.len() as int));
            assert(a.drop_first() =~= answers@.subrange(i + 1, answers.len() as int));
            assert(a[0] == answers@[i as int]);
            assert(s[0] == services@[i as int]);
        }
        match &answers[i] {
            Some(id) => {
                return Some((id.clone(), services[i]));
            },
            None => {},
        }
        i = i + 1;
    }
    None
}

/// Tells what the chain does after the answers so far.
pub fn next_lookup(services: &Vec<MediaSource>, answers: &Vec<Option<String>>) -> (step: LookupStep)
    ensures
        step == chain_step(services@, answers@),
{
    match resolve(services, answers) {
        Some(hit) => LookupStep::Done(Some(hit)),
        None => {
            if answers.len() < services.len() {
                LookupStep::Ask(services[answers.len()])
            } else {
                LookupStep::Done(None)
            }
        },
    }
}

/// The catalogs that are asked for a book, by priority.
pub fn book_catalogs() -> (services: Vec<MediaSource>)
    ensures
        services@ == book_catalog_chain(),
{
    let mut services = Vec::new();
    services.push(MediaSource::GoogleBooks);
    services.push(MediaSource::Openlibrary);
    services
}

/// Resolves a book's ISBN from what the two catalogs answered. The primary
/// catalog wins where it knows the ISBN; the secondary counts only where the
/// primary does not; where neither does, there is no identifier.
pub fn get_identifier_from_book_isbn(
    google_books: Option<String>,
    open_library: Option<String>,
) -> (hit: Option<(String, MediaSource)>)
    ensures
        hit == first_hit(book_catalog_chain(), seq![google_books, open_library]),
        hit == match (google_books, open_library) {
            (Some(id), _) => Some((id, MediaSource::GoogleBooks)),
            (None, Some(id)) => Some((id, MediaSource::Openlibrary)),
            (None, None) => None,
        },
{
    proof {
        let services = book_catalog_chain();
        let answers = seq![google_books, open_library];
        assert(answers[0] == google_books);
        assert(answers.drop_first()[0] == open_library);
        assert(services.drop_first()[0] == MediaSource::Openlibrary);
        assert(answers.drop_first().drop_first().len() == 0);
        reveal_with_fuel(first_hit, 3);
    }
    match google_books {
        Some(id) => Some((id, MediaSource::GoogleBooks)),
        None => match open_library {
            Some(id) => Some((id, MediaSource::Openlibrary)),
            None => None,
        },
    }
}

} // verus!
