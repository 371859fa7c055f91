//! The sample buffers that are lent to the driver, and their way back.
//!
//! A buffer is lent at full length. One that became a packet was cut to what was
//! received, and comes back emptied; one that became none comes back as it was lent.
//! Either way it is brought to full length before it is lent again.

use crossbeam::channel::{Receiver, TryRecvError};
use vstd::prelude::*;

verus! {

/// Samples per receive call: the full length of a buffer.
pub const CHUNK_SAMPLES: usize = 65536;

/// Buffers that the pool is filled with before capture starts.
pub const POOL_DEPTH: usize = 1024;

/// `samples` at length `len`: cut there, or carried on with `filler`.
pub open spec fn resized<T>(samples: Seq<T>, len: nat, filler: T) -> Seq<T> {
    Seq::new(
        len,
        |i: int|
            if i < samples.len() {
                samples[i]
            } else {
                filler
            },
    )
}

/// What is lent to the driver, given what came out of the pool.
pub open spec fn lent<T>(recycled: Option<Seq<T>>, silence: T) -> Seq<T> {
    match recycled {
        Some(samples) => resized(samples, CHUNK_SAMPLES as nat, silence),
        None => Seq::new(CHUNK_SAMPLES as nat, |i: int| silence),
    }
}

/// `crossbeam::channel::Receiver`, the receiving end of a channel. Nothing is claimed
/// of what a channel holds: other threads put items into it at any time.
#[verifier::external_type_specification]
#[verifier::external_body]
#[verifier::reject_recursive_types(T)]
pub struct ExReceiver<T>(Receiver<T>);

/// `crossbeam::channel::TryRecvError`, why no item could be taken.
#[verifier::external_type_specification]
#[verifier::external_body]
pub struct ExTryRecvError(TryRecvError);

/// `crossbeam::channel::Receiver::try_recv` takes an item without waiting, or returns
/// an error if there is none to take. Which of the two depends on other threads, so
/// nothing is claimed of the result.
pub assume_specification<T>[ Receiver::<T>::try_recv ](receiver: &Receiver<T>) -> (r: Result<
    T,
    TryRecvError,
>);

/// Brings `buffer` to full length, in place: samples beyond it are dropped, missing
/// ones are set to `silence`.
pub fn restore<T: Copy>(buffer: &mut Vec<T>, silence: T)
    ensures
        final(buffer)@ == resized(old(buffer)@, CHUNK_SAMPLES as nat, silence),
        final(buffer)@.len() == 65536,
        forall|i: int|
            0 <= i < 65536 ==> #[trigger] final(buffer)@[i] == if i < old(buffer)@.len() {
                old(buffer)@[i]
            } else {
                silence
            },
{
    buffer.truncate(CHUNK_SAMPLES);
    while buffer.len() < CHUNK_SAMPLES
        invariant
            buffer@.len() <= CHUNK_SAMPLES,
            forall|i: int|
                0 <= i < buffer@.len() ==> buffer@[i] == resized(
                    old(buffer)@,
                    CHUNK_SAMPLES as nat,
                    silence,
                )[i],
            buffer@.len() < CHUNK_SAMPLES ==> buffer@.len() >= old(buffer)@.len(),
        decreases CHUNK_SAMPLES - buffer.len(),
    {
        buffer.push(silence);
    }
}

/// A new buffer at full length, all `silence`.
pub fn fresh<T: Copy>(silence: T) -> (buffer: Vec<T>)
    ensures
        buffer@ == Seq::new(CHUNK_SAMPLES as nat, |i: int| silence),
        buffer@.len() == 65536,
{
    let mut buffer: Vec<T> = Vec::with_capacity(CHUNK_SAMPLES);
    restore(&mut buffer, silence);
    buffer
}

/// The buffer to lend, given what came out of the pool: that buffer at full length,
/// or a new one if there was none.
pub fn lend<T: Copy>(recycled: Option<Vec<T>>, silence: T) -> (buffer: Vec<T>)
    ensures
        recycled is Some ==> buffer@ == lent(Some(recycled->0@), silence),
        recycled is None ==> buffer@ == lent(None, silence),
{
    match recycled {
        Some(b) => {
            let mut buffer = b;
            restore(&mut buffer, silence);
            buffer
        },
        None => fresh(silence),
    }
}

/// Takes a buffer to lend from the pool, without waiting: a recycled one, or a new one
/// if the pool has none to give. The pool is asked, and what it gives is what is lent,
/// at full length; what it gives depends on other threads and is left open.
pub fn borrow_buffer<T: Copy>(pool: &Receiver<Vec<T>>, silence: T) -> (buffer: Vec<T>)
    ensures
        buffer@.len() == CHUNK_SAMPLES,
        exists|r: Result<Vec<T>, TryRecvError>| #[trigger]
            call_ensures(Receiver::<Vec<T>>::try_recv, (pool,), r) && buffer@ == lent(
                (match r {
                    Ok(b) => Some(b@),
                    Err(_) => None,
                }),
                silence,
            ),
{
    let taken = pool.try_recv();
    assert(call_ensures(Receiver::<Vec<T>>::try_recv, (pool,), taken));
    let recycled = match taken {
        Ok(b) => Some(b),
        Err(_) => None,
    };
    lend(recycled, silence)
}

/// Cuts `buffer` to the first `samples` of it, as a packet carries them.
pub fn trim<T>(buffer: &mut Vec<T>, samples: usize)
    ensures
        samples <= old(buffer)@.len() ==> final(buffer)@ == old(buffer)@.take(samples as int),
        samples > old(buffer)@.len() ==> final(buffer)@ == old(buffer)@,
{
    buffer.truncate(samples);
}

/// A buffer that comes back emptied is lent as if it were new: nothing of an earlier
/// packet is left in it.
pub proof fn law_emptied_buffer_is_silent<T>(silence: T)
    ensures
        lent(Some(Seq::empty()), silence) == lent(None, silence),
{
    assert(lent(Some(Seq::empty()), silence) =~= lent(None, silence));
}

/// A buffer that comes back at full length is lent as it is.
pub proof fn law_full_buffer_is_kept<T>(samples: Seq<T>, silence: T)
    requires
        samples.len() == CHUNK_SAMPLES,
    ensures
        lent(Some(samples), silence) == samples,
{
    assert(lent(Some(samples), silence) =~= samples);
}

/// Whatever comes out of the pool, a buffer is lent at full length, with what it held
/// at its front and silence behind; a new one is silence all through.
pub proof fn law_lent_buffer_is_full<T>(recycled: Seq<T>, silence: T, i: int)
    requires
        0 <= i < 65536,
    ensures
        lent(Some(recycled), silence).len() == 65536,
        i < recycled.len() ==> lent(Some(recycled), silence)[i] == recycled[i],
        i >= recycled.len() ==> lent(Some(recycled), silence)[i] == silence,
        lent(None, silence).len() == 65536,
        lent(None, silence)[i] == silence,
{
}

/// A resized sequence has the length it was resized to, and agrees with the old one for
/// as far as both go. Beyond that it is filler.
pub proof fn law_resizing_keeps_the_front<T>(samples: Seq<T>, len: nat, filler: T)
    ensures
        resized(samples, len, filler).len() == len,
        len <= samples.len() ==> resized(samples, len, filler) == samples.take(len as int),
        len >= samples.len() ==> resized(samples, len, filler) == samples + Seq::new(
            (len - samples.len()) as nat,
            |i: int| filler,
        ),
{
    if len <= samples.len() {
        assert(resized(samples, len, filler) =~= samples.take(len as int));
    }
    if len >= samples.len() {
        assert(resized(samples, len, filler) =~= samples + Seq::new(
            (len - samples.len()) as nat,
            |i: int| filler,
        ));
    }
}

/// A full pool holds 1024 buffers of 65536 samples each.
pub proof fn law_size_of_a_full_pool()
    ensures
        POOL_DEPTH * CHUNK_SAMPLES == 67108864,
        CHUNK_SAMPLES == 65536,
{
}

/// A buffer that was lent, whatever came out of the pool, is full, and holds what came
/// out as far as that goes; two that are lent on the same terms are the same.
pub proof fn law_what_is_lent<T: Copy>(
    recycled: Option<Vec<T>>,
    silence: T,
    a: Vec<T>,
    b: Vec<T>,
    i: int,
)
    requires
        call_ensures(lend::<T>, (recycled, silence), a),
        call_ensures(lend::<T>, (recycled, silence), b),
        0 <= i < 65536,
    ensures
        a@.len() == 65536,
        a@ == b@,
        a@[i] == (match recycled {
            Some(r) => if i < r@.len() {
                r@[i]
            } else {
                silence
            },
            None => silence,
        }),
{
    assert(a@ =~= b@);
}

} // verus!
