//! A fixed-size ring buffer for audio samples, read in the order they were written.
use vstd::prelude::*;

verus! {

/// Abstract state of a [`SampleBuffer`]: its storage and where the queued samples lie in it.
pub struct SampleBufferView<T> {
    pub size: usize,
    pub start: usize,
    pub end: usize,
    pub len: usize,
    pub samples: Seq<T>,
}

impl<T> SampleBufferView<T> {
    pub open spec fn wf(self) -> bool {
        &&& self.size > 0
        &&& self.size * 2 <= usize::MAX
        &&& self.samples.len() == self.size
        &&& self.start < self.size
        &&& self.len <= self.size
        &&& self.end == (self.start + self.len) % (self.size as int)
    }

    /// The queued samples, oldest first.
    pub open spec fn contents(self) -> Seq<T> {
        Seq::new(self.len as nat, |i: int| self.samples[(self.start + i) % (self.size as int)])
    }
}

/// A ring buffer of `size` samples.
pub struct SampleBuffer<T> {
    size: usize,
    start: usize,
    end: usize,
    len: usize,
    samples: Vec<T>,
}

impl<T> View for SampleBuffer<T> {
    type V = SampleBufferView<T>;

    closed spec fn view(&self) -> SampleBufferView<T> {
        SampleBufferView {
            size: self.size,
            start: self.start,
            end: self.end,
            len: self.len,
            samples: self.samples@,
        }
    }
}

impl<T: Copy> SampleBuffer<T> {
    /// An empty buffer with room for `size` samples, its storage filled with `zero`.
    pub fn new(size: usize, zero: T) -> (r: Self)
        requires
            size > 0,
            size * 2 <= usize::MAX,
        ensures
            r@.wf(),
            r@.size == size,
            r@.contents() == Seq::<T>::empty(),
            r@.samples == Seq::new(size as nat, |i: int| zero),
    {
        let mut samples: Vec<T> = Vec::new();
        let mut i: usize = 0;
        while i < size
            invariant
                0 <= i <= size,
                samples@ == Seq::new(i as nat, |j: int| zero),
            decreases size - i,
        {
            samples.push(zero);
            i = i + 1;
            assert(samples@ =~= Seq::new(i as nat, |j: int| zero));
        }
        let r = Self { samples, size, start: 0, end: 0, len: 0 };
        proof {
            lemma_mod_once(0, size as int);
        }
        assert(r@.contents() =~= Seq::<T>::empty());
        r
    }

    /// How many samples are queued.
    pub fn len(&self) -> (r: usize)
        ensures
            r == self@.len,
    {
        self.len
    }

    /// Takes the oldest sample, if any.
    pub fn read(&mut self) -> (r: Option<T>)
        requires
            old(self)@.wf(),
        ensures
            final(self)@.wf(),
            final(self)@.size == old(self)@.size,
            final(self)@.samples == old(self)@.samples,
            old(self)@.len > 0 ==> r == Some(old(self)@.contents()[0]) && final(self)@.contents()
                == old(self)@.contents().drop_first(),
            old(self)@.len > 0 ==> r == Some(old(self)@.samples[old(self)@.start as int])
                && final(self)@ == (SampleBufferView {
                start: ((old(self)@.start + 1) % (old(self)@.size as int)) as usize,
                len: (old(self)@.len - 1) as usize,
                ..old(self)@
            }),
            old(self)@.len == 0 ==> r is None && final(self)@ == old(self)@,
    {
        if self.len > 0 {
            let sample = self.samples[self.start];
            let ghost q = self@.contents();
            proof {
                lemma_mod_small(self.start as int, self.size as int);
            }
            self.start = (self.start + 1) % self.size;
            self.len = self.len - 1;
            proof {
                lemma_shift_window(old(self)@, self@);
                assert(self@.end == (self@.start + self@.len) % (self@.size as int)) by {
                    lemma_mod_add_one(old(self)@.start as int, old(self)@.len as int, self@.size as int);
                }
            }
            Some(sample)
        } else {
            None
        }
    }

    /// Queues a sample behind the others; the buffer must not be full.
    pub fn write(&mut self, sample: T)
        requires
            old(self)@.wf(),
            old(self)@.len < old(self)@.size,
        ensures
            final(self)@.wf(),
            final(self)@.size == old(self)@.size,
            final(self)@.contents() == old(self)@.contents().push(sample),
            final(self)@ == (SampleBufferView {
                samples: old(self)@.samples.update(old(self)@.end as int, sample),
                end: ((old(self)@.end + 1) % (old(self)@.size as int)) as usize,
                len: (old(self)@.len + 1) as usize,
                ..old(self)@
            }),
    {
        let ghost before = self@;
        self.samples.set(self.end, sample);
        self.end = (self.end + 1) % self.size;
        self.len = self.len + 1;
        proof {
            lemma_push_window(before, self@, sample);
        }
    }

    /// Drops every queued sample.
    pub fn clear(&mut self)
        requires
            old(self)@.wf(),
        ensures
            final(self)@.wf(),
            final(self)@ == (SampleBufferView { start: 0, end: 0, len: 0, ..old(self)@ }),
            final(self)@.contents() == Seq::<T>::empty(),
    {
        self.start = 0;
        self.end = 0;
        self.len = 0;
        proof {
            lemma_mod_once(0, self.size as int);
        }
        assert(self@.contents() =~= Seq::<T>::empty());
    }

    /// Copies the queued samples to the front of `buffer` and empties the buffer. The `i`-th
    /// copied sample is taken from storage position `start + i` modulo the number queued.
    pub fn copy_to(&mut self, buffer: &mut [T])
        requires
            old(self)@.wf(),
            old(buffer)@.len() >= old(self)@.len,
        ensures
            final(self)@ == (SampleBufferView { start: 0, end: 0, len: 0, ..old(self)@ }),
            final(buffer)@.len() == old(buffer)@.len(),
            forall|i: int|
                0 <= i < old(self)@.len ==> #[trigger] final(buffer)@[i] == old(self)@.samples[(
                old(self)@.start + i) % (old(self)@.len as int)],
            forall|i: int|
                old(self)@.len <= i < old(buffer)@.len() ==> #[trigger] final(buffer)@[i] == old(
                    buffer,
                )@[i],
    {
        let mut i: usize = 0;
        while i < self.len
            invariant
                self@ == old(self)@,
                old(self)@.wf(),
                buffer@.len() == old(buffer)@.len(),
                old(buffer)@.len() >= old(self)@.len,
                0 <= i <= self.len,
                forall|j: int|
                    0 <= j < i ==> #[trigger] buffer@[j] == old(self)@.samples[(old(self)@.start + j)
                        % (old(self)@.len as int)],
                forall|j: int| i <= j < buffer@.len() ==> #[trigger] buffer@[j] == old(buffer)@[j],
            decreases self.len - i,
        {
            proof {
                lemma_mod_bound((self.start + i) as int, self.len as int);
            }
            let index = (self.start + i) % self.len;
            buffer[i] = self.samples[index];
            i = i + 1;
        }
        self.start = 0;
        self.end = 0;
        self.len = 0;
    }
}

/// A number below twice the modulus, reduced once.
proof fn lemma_mod_once(x: int, m: int)
    requires
        0 < m,
        0 <= x < 2 * m,
    ensures
        x % m == if x < m {
            x
        } else {
            x - m
        },
{
    if x < m {
        vstd::arithmetic::div_mod::lemma_small_mod(x as nat, m as nat);
    } else {
        vstd::arithmetic::div_mod::lemma_fundamental_div_mod_converse(x, m, 1, x - m);
    }
}

proof fn lemma_mod_small(a: int, m: int)
    requires
        0 <= a < m,
    ensures
        a % m == a,
{
    lemma_mod_once(a, m);
}

proof fn lemma_mod_bound(a: int, m: int)
    requires
        0 <= a,
        0 < m,
    ensures
        0 <= a % m < m,
{
    vstd::arithmetic::div_mod::lemma_mod_bound(a, m);
}

proof fn lemma_mod_add_one(s: int, l: int, m: int)
    requires
        0 <= s < m,
        1 <= l <= m,
    ensures
        (((s + 1) % m) + (l - 1)) % m == (s + l) % m,
{
    lemma_mod_once(s + 1, m);
    lemma_mod_once(s + l, m);
    lemma_mod_once(((s + 1) % m) + (l - 1), m);
}

proof fn lemma_shift_window<T>(a: SampleBufferView<T>, b: SampleBufferView<T>)
    requires
        a.wf(),
        a.len > 0,
        b.size == a.size,
        b.samples == a.samples,
        b.start == (a.start + 1) % (a.size as int),
        b.len == a.len - 1,
    ensures
        b.contents() == a.contents().drop_first(),
{
    let m = a.size as int;
    lemma_mod_once(a.start + 1, m);
    assert forall|i: int| 0 <= i < b.len implies #[trigger] b.contents()[i] == a.contents().drop_first()[i] by {
        lemma_mod_once(b.start + i, m);
        lemma_mod_once(a.start + (i + 1), m);
    }
    assert(b.contents() =~= a.contents().drop_first());
}

proof fn lemma_push_window<T>(a: SampleBufferView<T>, b: SampleBufferView<T>, x: T)
    requires
        a.wf(),
        a.len < a.size,
        b.size == a.size,
        b.start == a.start,
        b.len == a.len + 1,
        b.end == (a.end + 1) % (a.size as int),
        b.samples == a.samples.update(a.end as int, x),
    ensures
        b.wf(),
        b.contents() == a.contents().push(x),
{
    let m = a.size as int;
    lemma_mod_once(a.start + a.len, m);
    lemma_mod_once(a.end + 1, m);
    lemma_mod_once(b.start + b.len, m);
    assert forall|i: int| 0 <= i < b.len implies #[trigger] b.contents()[i] == a.contents().push(x)[i] by {
        lemma_mod_once(a.start + i, m);
    }
    assert(b.contents() =~= a.contents().push(x));
}

} // verus!
