//! The option buffer handed to `JNI_CreateJavaVM`.
//!
//! Each slot owns the bytes of its option string, terminated by a NUL
//! byte; dropping the buffer releases every string once, with the slots.

use vstd::prelude::*;

use crate::consts::{JNI_FALSE, JNI_VERSION_1_6};
use crate::error::JniError;
use crate::types::{Jboolean, Jint};
use vstd::utf8::encode_utf8;

verus! {

/// The bytes that a slot holds once `text` was stored in it: its UTF-8
/// encoding followed by a NUL byte.
pub open spec fn c_string_of(text: Seq<char>) -> Seq<u8> {
    encode_utf8(text).push(0u8)
}

/// What a slot holds: `None` for the null string, else the string's bytes.
pub open spec fn slot_view(slot: Option<Vec<u8>>) -> Option<Seq<u8>> {
    match slot {
        Some(bytes) => Some(bytes@),
        None => None,
    }
}

/// The slots after storing `texts[i]` in slot `i`, for each `i` in order,
/// starting from `slots`.
pub open spec fn fill_in_order(slots: Seq<Option<Seq<u8>>>, texts: Seq<Seq<char>>) -> Seq<
    Option<Seq<u8>>,
>
    decreases texts.len(),
{
    if texts.len() == 0 {
        slots
    } else {
        fill_in_order(slots, texts.drop_last()).update(
            texts.len() - 1,
            Some(c_string_of(texts.last())),
        )
    }
}

/// A buffer of `n` slots filled with `n` options in order reads back as
/// exactly those `n` options, in that order.
pub proof fn lemma_fill_round_trip(texts: Seq<Seq<char>>)
    ensures
        fill_in_order(Seq::new(texts.len(), |i: int| None::<Seq<u8>>), texts) == texts.map_values(
            |t: Seq<char>| Some(c_string_of(t)),
        ),
{
    lemma_fill_prefix(texts.len(), texts);
}

proof fn lemma_fill_prefix(n: nat, texts: Seq<Seq<char>>)
    requires
        texts.len() <= n,
    ensures
        fill_in_order(Seq::new(n, |i: int| None::<Seq<u8>>), texts) =~= Seq::new(
            n,
            |i: int|
                if i < texts.len() {
                    Some(c_string_of(texts[i]))
                } else {
                    None::<Seq<u8>>
                },
        ),
    decreases texts.len(),
{
    if texts.len() > 0 {
        lemma_fill_prefix(n, texts.drop_last());
    }
}

/// The option slots of `JavaVMInitArgs`.
pub struct VmInitArgs {
    options: Vec<Option<Vec<u8>>>,
}

impl View for VmInitArgs {
    type V = Seq<Option<Seq<u8>>>;

    closed spec fn view(&self) -> Seq<Option<Seq<u8>>> {
        self.options@.map_values(|slot: Option<Vec<u8>>| slot_view(slot))
    }
}

impl VmInitArgs {
    /// The buffer keeps its slot count within what `n_options` can hold.
    pub open spec fn wf(&self) -> bool {
        self@.len() <= i64::MAX
    }

    /// A buffer of `capacity` slots, each holding the null string.
    pub fn new(capacity: usize) -> (r: VmInitArgs)
        requires
            capacity <= i64::MAX,
        ensures
            r.wf(),
            r@ == Seq::new(capacity as nat, |i: int| None::<Seq<u8>>),
    {
        let mut options: Vec<Option<Vec<u8>>> = Vec::with_capacity(capacity);
        let mut i: usize = 0;
        while i < capacity
            invariant
                i <= capacity,
                options@.len() == i,
                forall|j: int| 0 <= j < i ==> #[trigger] options@[j] is None,
            decreases capacity - i,
        {
            options.push(None);
            i = i + 1;
        }
        let r = VmInitArgs { options };
        assert(r@ =~= Seq::new(capacity as nat, |i: int| None::<Seq<u8>>));
        r
    }

    /// A buffer that holds `options`, one per slot, in order.
    pub fn from_options(options: &Vec<String>) -> (r: VmInitArgs)
        requires
            options@.len() <= i64::MAX,
        ensures
            r.wf(),
            r@ == options@.map_values(|t: String| Some(c_string_of(t@))),
    {
        let mut args = VmInitArgs::new(options.len());
        let mut i: usize = 0;
        while i < options.len()
            invariant
                i <= options@.len(),
                args.wf(),
                args@.len() == options@.len(),
                forall|j: int|
                    0 <= j < options@.len() ==> #[trigger] args@[j] == if j < i {
                        Some(c_string_of(options@[j]@))
                    } else {
                        None::<Seq<u8>>
                    },
            decreases options@.len() - i,
        {
            let _ = args.push_vm_arg(i, options[i].as_str());
            i = i + 1;
        }
        assert(args@ =~= options@.map_values(|t: String| Some(c_string_of(t@))));
        args
    }

    /// Stores `option`, NUL-terminated, in slot `index`. An index beyond the
    /// capacity is refused and leaves the buffer as it was.
    pub fn push_vm_arg(&mut self, index: usize, option: &str) -> (r: Result<(), JniError>)
        requires
            old(self).wf(),
        ensures
            final(self).wf(),
            r is Ok <==> index < old(self)@.len(),
            r is Ok ==> final(self)@ == old(self)@.update(index as int, Some(c_string_of(option@))),
            r matches Err(e) ==> e == (JniError::OutOfRange { index, capacity: old(self)@.len() as usize }),
            r is Err ==> final(self)@ == old(self)@,
    {
        if index >= self.options.len() {
            return Err(JniError::OutOfRange { index, capacity: self.options.len() });
        }
        let bytes = option.as_bytes();
        let mut buffer: Vec<u8> = Vec::new();
        let mut i: usize = 0;
        while i < bytes.len()
            invariant
                i <= bytes@.len(),
                bytes@ == encode_utf8(option@),
                buffer@ == bytes@.subrange(0, i as int),
            decreases bytes@.len() - i,
        {
            buffer.push(bytes[i]);
            i = i + 1;
        }
        buffer.push(0u8);
        assert(buffer@ =~= c_string_of(option@));
        self.options.set(index, Some(buffer));
        assert(self@ =~= old(self)@.update(index as int, Some(c_string_of(option@))));
        Ok(())
    }

    /// The slots, in order.
    pub fn finish(&self) -> (r: &Vec<Option<Vec<u8>>>)
        ensures
            r@.map_values(|slot: Option<Vec<u8>>| slot_view(slot)) == self@,
    {
        &self.options
    }

    /// The interface version that the buffer asks for.
    pub fn version(&self) -> (r: Jint)
        ensures
            r == JNI_VERSION_1_6,
    {
        JNI_VERSION_1_6
    }

    /// Whether the virtual machine may ignore options it does not know: it
    /// may not.
    pub fn ignore_unrecognized(&self) -> (r: Jboolean)
        ensures
            r == JNI_FALSE,
    {
        JNI_FALSE
    }

    /// The slot count, as `JavaVMInitArgs` records it.
    pub fn n_options(&self) -> (r: Jint)
        requires
            self.wf(),
        ensures
            r == self@.len(),
    {
        self.options.len() as Jint
    }
}

} // verus!
