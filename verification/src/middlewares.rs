//! Reading what a request carries.
use vstd::prelude::*;
use crate::controllers::account::Picture;
use crate::reply::{text_reply, Reply};
use crate::routes::auth::{form_limit_bytes, form_limit_bytes_of};

verus! {

/// The limit of what a request may carry, where `configured` is asked for: never less than the
/// largest form with a picture.
pub open spec fn body_limit_of(configured: usize) -> usize {
    let image = form_limit_bytes_of(Picture::Image) as usize;
    let banner = form_limit_bytes_of(Picture::Banner) as usize;
    let largest = if image > banner {
        image
    } else {
        banner
    };
    if configured > largest {
        configured
    } else {
        largest
    }
}

/// The limit of what a request may carry.
pub fn body_limit(configured: usize) -> (r: usize)
    ensures
        r == body_limit_of(configured),
{
    let image = form_limit_bytes(Picture::Image) as usize;
    let banner = form_limit_bytes(Picture::Banner) as usize;
    let largest = if image > banner {
        image
    } else {
        banner
    };
    if configured > largest {
        configured
    } else {
        largest
    }
}

/// No form with a picture that is small enough is too large for a request.
pub proof fn uploads_fit_into_requests(picture: Picture, configured: usize)
    ensures
        form_limit_bytes_of(picture) <= body_limit_of(configured),
        configured <= body_limit_of(configured),
{
}

/// Adds the next piece of what a request carries, unless it becomes larger than `max` bytes:
/// then nothing is added, and the request is answered so.
pub fn read_body_bytes(body: &mut Vec<u8>, chunk: &Vec<u8>, max: usize) -> (r: Result<(), Reply>)
    ensures
        match r {
            Ok(_) => old(body)@.len() + chunk@.len() <= max && final(body)@ == old(body)@ + chunk@,
            Err(reply) => old(body)@.len() + chunk@.len() > max && final(body)@ == old(body)@
                && reply == text_reply(413, "Payload too large"),
        },
{
    if chunk.len() > max || body.len() > max - chunk.len() {
        return Err(text_reply(413, "Payload too large"));
    }
    let ghost before = body@;
    let mut i: usize = 0;
    proof {
        assert(before + chunk@.take(0) =~= before);
    }
    while i < chunk.len()
        invariant
            i <= chunk.len(),
            body@ == before + chunk@.take(i as int),
        decreases chunk.len() - i,
    {
        proof {
            assert((before + chunk@.take(i as int)).push(chunk@[i as int]) =~= before + chunk@.take(
                i + 1,
            ));
        }
        body.push(chunk[i]);
        i = i + 1;
    }
    proof {
        assert(chunk@.take(chunk@.len() as int) =~= chunk@);
    }
    Ok(())
}

/// A request may carry what is configured, and at least the largest form with a picture, which has
/// seven mebibytes.
pub proof fn requests_may_carry_what_is_configured(configured: usize)
    ensures
        configured >= 7 * 1024 * 1024 ==> body_limit_of(configured) == configured,
        configured < 7 * 1024 * 1024 ==> body_limit_of(configured) == 7 * 1024 * 1024,
{
}

} // verus!
