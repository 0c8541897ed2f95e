use vstd::prelude::*;

verus! {

/// Which branch-converter variant a filter applies.
#[derive(Clone, Copy, PartialEq, Eq, Structural)]
pub enum BcjKind {
    /// 32-bit ARM branch-and-link instructions.
    Arm,
    /// Thumb-mode branch-and-link pairs.
    ArmThumb,
    /// ARM64 branch and page-address instructions.
    Arm64,
}

/// The running position a filter sees at buffer offset `i`, reduced to
/// the 32 bits the rewrites use.
pub open spec fn spec_bcj_p(pos: usize, i: int) -> u32 {
    vstd::wrapping::usize_specs::wrapping_add(pos, i as usize) as u32
}

/// One ARM word transformed in place: a word whose top byte is 0xEB is a
/// branch-and-link; its 24-bit target is scaled to bytes, rebased by the
/// running position (added when encoding, subtracted when decoding) and
/// written back.
pub open spec fn spec_arm_step(s: Seq<u8>, i: int, p: u32, enc: bool) -> Seq<u8> {
    if s[i + 3] == 0xEB {
        let src = (((s[i + 2] as u32) << 16) | ((s[i + 1] as u32) << 8) | (s[i] as u32)) << 2;
        let moved = if enc {
            vstd::wrapping::u32_specs::wrapping_add(src, p)
        } else {
            vstd::wrapping::u32_specs::wrapping_sub(src, p)
        };
        let dest = moved >> 2;
        s.update(i + 2, ((dest >> 16) % 0x100) as u8).update(
            i + 1,
            ((dest >> 8) % 0x100) as u8,
        ).update(i, (dest % 0x100) as u8)
    } else {
        s
    }
}

/// The ARM filter over the whole buffer: every aligned word from `i` on
/// is transformed; a tail shorter than a word stays as it is.
pub open spec fn spec_arm_filtered(s: Seq<u8>, i: int, pos: usize, enc: bool) -> Seq<u8>
    decreases s.len() - i,
{
    if i < 0 || i + 4 > s.len() {
        s
    } else {
        spec_arm_filtered(spec_arm_step(s, i, spec_bcj_p(pos, i), enc), i + 4, pos, enc)
    }
}

/// One Thumb pair transformed in place, when the half-words carry the
/// 0xF0/0xF8 branch-and-link marks: the split 22-bit target is scaled,
/// rebased by the running position and written back over both
/// half-words.
pub open spec fn spec_arm_thumb_step(s: Seq<u8>, i: int, p: u32, enc: bool) -> Seq<u8> {
    let src = ((((s[i + 1] as u32) & 0x07) << 19) | (((s[i] as u32) & 0xFF) << 11) | (((s[i
        + 3] as u32) & 0x07) << 8) | ((s[i + 2] as u32) & 0xFF)) << 1;
    let moved = if enc {
        vstd::wrapping::u32_specs::wrapping_add(src, p)
    } else {
        vstd::wrapping::u32_specs::wrapping_sub(src, p)
    };
    let dest = moved >> 1;
    s.update(i + 1, (0xF0 + ((dest >> 19) % 8)) as u8).update(
        i,
        ((dest >> 11) % 0x100) as u8,
    ).update(i + 3, (0xF8 + ((dest >> 8) % 8)) as u8).update(i + 2, (dest % 0x100) as u8)
}

/// Whether the four bytes at `i` hold a Thumb branch-and-link pair.
pub open spec fn spec_arm_thumb_match(s: Seq<u8>, i: int) -> bool {
    ((s[i + 3] as u32) & 0xF8) == 0xF8 && ((s[i + 1] as u32) & 0xF8) == 0xF0
}

/// The Thumb filter over the whole buffer: the scan advances a pair at a
/// time and skips the second half of each rewritten pair.
pub open spec fn spec_arm_thumb_filtered(s: Seq<u8>, i: int, pos: usize, enc: bool) -> Seq<u8>
    decreases s.len() - i,
{
    if i < 0 || i + 4 > s.len() {
        s
    } else if spec_arm_thumb_match(s, i) {
        spec_arm_thumb_filtered(
            spec_arm_thumb_step(s, i, spec_bcj_p(pos, i), enc),
            i + 4,
            pos,
            enc,
        )
    } else {
        spec_arm_thumb_filtered(s, i + 2, pos, enc)
    }
}

/// One ARM64 word transformed in place: a BL instruction has its 26-bit
/// target rebased by the position in words; an ADRP instruction within
/// the correctable page range has its 21-bit page offset rebased by the
/// position in pages and reassembled.
pub open spec fn spec_arm64_step(s: Seq<u8>, i: int, p: u32, enc: bool) -> Seq<u8> {
    let src = vstd::wrapping::u32_specs::wrapping_add(
        vstd::wrapping::u32_specs::wrapping_add(
            vstd::wrapping::u32_specs::wrapping_add(
                (s[i + 3] as u32) << 24,
                (s[i + 2] as u32) << 16,
            ),
            (s[i + 1] as u32) << 8,
        ),
        s[i] as u32,
    );
    let s1 = if (src >> 26) & 0x3F == 0x25 {
        let moved = if enc {
            vstd::wrapping::u32_specs::wrapping_add(src, p >> 2)
        } else {
            vstd::wrapping::u32_specs::wrapping_sub(src, p >> 2)
        };
        let dest = (moved & 0x03FFFFFF) | (0x94u32 << 24);
        s.update(i + 3, ((dest >> 24) % 0x100) as u8).update(
            i + 2,
            ((dest >> 16) % 0x100) as u8,
        ).update(i + 1, ((dest >> 8) % 0x100) as u8).update(i, (dest % 0x100) as u8)
    } else {
        s
    };
    if (src >> 24) & 0x9F == 0x90 {
        let addr = ((src >> 29) & 3) | ((src >> 3) & 0x001FFFFC);
        if vstd::wrapping::u32_specs::wrapping_add(addr, 0x00020000) & 0x001C0000 == 0 {
            let base = (0x90u32 << 24) | (src & 0x1F);
            let addr2 = if enc {
                vstd::wrapping::u32_specs::wrapping_add(addr, p >> 12)
            } else {
                vstd::wrapping::u32_specs::wrapping_sub(addr, p >> 12)
            };
            let dest = base | ((addr2 & 3) << 29) | ((addr2 & 0x0003FFFC) << 3) | (
            vstd::wrapping::u32_specs::wrapping_sub(0u32, addr2 & 0x00020000) & 0x00E00000);
            s1.update(i + 3, ((dest >> 24) % 0x100) as u8).update(
                i + 2,
                ((dest >> 16) % 0x100) as u8,
            ).update(i + 1, ((dest >> 8) % 0x100) as u8).update(i, (dest % 0x100) as u8)
        } else {
            s1
        }
    } else {
        s1
    }
}

/// The ARM64 filter over the whole buffer: every aligned word from `i`
/// on is transformed; a tail shorter than a word stays as it is.
pub open spec fn spec_arm64_filtered(s: Seq<u8>, i: int, pos: usize, enc: bool) -> Seq<u8>
    decreases s.len() - i,
{
    if i < 0 || i + 4 > s.len() {
        s
    } else {
        spec_arm64_filtered(spec_arm64_step(s, i, spec_bcj_p(pos, i), enc), i + 4, pos, enc)
    }
}

/// A branch-converter filter: it rewrites relative branch targets to
/// absolute ones (encoding) or back (decoding), so position-dependent
/// code compresses better.
pub struct BCJFilter {
    is_encoder: bool,
    pos: usize,
    kind: BcjKind,
}

impl BCJFilter {
    /// Which converter this filter applies.
    pub closed spec fn spec_kind(&self) -> BcjKind {
        self.kind
    }

    /// The running position.
    pub closed spec fn spec_pos(&self) -> usize {
        self.pos
    }

    /// Whether the filter rebases forwards (encoding) or back.
    pub closed spec fn spec_is_encoder(&self) -> bool {
        self.is_encoder
    }

    /// Creates an ARM filter starting at `start_pos`.
    pub fn new_arm(start_pos: usize, encoder: bool) -> (r: BCJFilter)
        requires
            start_pos + 8 <= usize::MAX,
        ensures
            r.spec_kind() == BcjKind::Arm,
            r.spec_pos() == start_pos + 8,
            r.spec_is_encoder() == encoder,
    {
        BCJFilter { is_encoder: encoder, pos: start_pos + 8, kind: BcjKind::Arm }
    }

    /// Creates an ARM Thumb filter starting at `start_pos`.
    pub fn new_arm_thumb(start_pos: usize, encoder: bool) -> (r: BCJFilter)
        requires
            start_pos + 4 <= usize::MAX,
        ensures
            r.spec_kind() == BcjKind::ArmThumb,
            r.spec_pos() == start_pos + 4,
            r.spec_is_encoder() == encoder,
    {
        BCJFilter { is_encoder: encoder, pos: start_pos + 4, kind: BcjKind::ArmThumb }
    }

    /// Creates an ARM64 filter starting at `start_pos`.
    pub fn new_arm64(start_pos: usize, encoder: bool) -> (r: BCJFilter)
        ensures
            r.spec_kind() == BcjKind::Arm64,
            r.spec_pos() == start_pos,
            r.spec_is_encoder() == encoder,
    {
        BCJFilter { is_encoder: encoder, pos: start_pos, kind: BcjKind::Arm64 }
    }

    /// Filters `buf` in place and returns how many bytes were processed;
    /// a tail shorter than one instruction is left untouched. The result
    /// is the word-wise branch conversion of the buffer for the filter's
    /// variant, starting at its running position.
    pub fn code(&mut self, buf: &mut Vec<u8>) -> (r: usize)
        ensures
            final(buf)@.len() == old(buf)@.len(),
            r <= old(buf)@.len(),
            old(self).spec_kind() == BcjKind::Arm ==> final(buf)@ == spec_arm_filtered(
                old(buf)@,
                0,
                old(self).spec_pos(),
                old(self).spec_is_encoder(),
            ),
            old(self).spec_kind() == BcjKind::ArmThumb ==> final(buf)@
                == spec_arm_thumb_filtered(
                old(buf)@,
                0,
                old(self).spec_pos(),
                old(self).spec_is_encoder(),
            ),
            old(self).spec_kind() == BcjKind::Arm64 ==> final(buf)@ == spec_arm64_filtered(
                old(buf)@,
                0,
                old(self).spec_pos(),
                old(self).spec_is_encoder(),
            ),
    {
        match self.kind {
            BcjKind::Arm => self.arm_code(buf),
            BcjKind::ArmThumb => self.arm_thumb_code(buf),
            BcjKind::Arm64 => self.arm64_code(buf),
        }
    }

    /// Rewrites ARM branch-and-link targets.
    fn arm_code(&mut self, buf: &mut Vec<u8>) -> (r: usize)
        ensures
            final(buf)@.len() == old(buf)@.len(),
            r <= old(buf)@.len(),
            final(buf)@ == spec_arm_filtered(
                old(buf)@,
                0,
                old(self).pos,
                old(self).is_encoder,
            ),
    {
        let len = buf.len();
        if len < 4 {
            return 0;
        }
        let end = len - 4;
        let mut i: usize = 0;
        while i <= end
            invariant
                buf@.len() == len,
                end + 4 == len,
                i <= end + 4,
                self.pos == old(self).pos,
                self.is_encoder == old(self).is_encoder,
                spec_arm_filtered(old(buf)@, 0, old(self).pos, old(self).is_encoder)
                    == spec_arm_filtered(buf@, i as int, old(self).pos, old(self).is_encoder),
            decreases end + 4 - i,
        {
            let ghost pre = buf@;
            let b3 = buf[i + 3];
            if b3 == 0xEB {
                let b2 = buf[i + 2] as u32;
                let b1 = buf[i + 1] as u32;
                let b0 = buf[i] as u32;
                let src = ((b2 << 16) | (b1 << 8) | b0) << 2;
                let p = #[verifier::truncate] (self.pos.wrapping_add(i) as u32);
                let dest = if self.is_encoder {
                    src.wrapping_add(p)
                } else {
                    src.wrapping_sub(p)
                };
                let dest = dest >> 2;
                buf.set(i + 2, ((dest >> 16) % 0x100) as u8);
                buf.set(i + 1, ((dest >> 8) % 0x100) as u8);
                buf.set(i, (dest % 0x100) as u8);
                proof {
                    assert(p == spec_bcj_p(self.pos, i as int));
                    assert(buf@ == spec_arm_step(
                        pre,
                        i as int,
                        spec_bcj_p(self.pos, i as int),
                        self.is_encoder,
                    ));
                }
            } else {
                proof {
                    assert(buf@ == spec_arm_step(
                        pre,
                        i as int,
                        spec_bcj_p(self.pos, i as int),
                        self.is_encoder,
                    ));
                }
            }
            i = i + 4;
        }
        self.pos = self.pos.wrapping_add(i);
        if i <= len {
            i
        } else {
            len
        }
    }

    /// Rewrites Thumb branch-and-link pairs.
    fn arm_thumb_code(&mut self, buf: &mut Vec<u8>) -> (r: usize)
        ensures
            final(buf)@.len() == old(buf)@.len(),
            r <= old(buf)@.len(),
            final(buf)@ == spec_arm_thumb_filtered(
                old(buf)@,
                0,
                old(self).pos,
                old(self).is_encoder,
            ),
    {
        let len = buf.len();
        if len < 4 {
            return 0;
        }
        let end = len - 4;
        let mut i: usize = 0;
        while i <= end
            invariant
                buf@.len() == len,
                end + 4 == len,
                i <= end + 4,
                self.pos == old(self).pos,
                self.is_encoder == old(self).is_encoder,
                spec_arm_thumb_filtered(old(buf)@, 0, old(self).pos, old(self).is_encoder)
                    == spec_arm_thumb_filtered(
                    buf@,
                    i as int,
                    old(self).pos,
                    old(self).is_encoder,
                ),
            decreases end + 4 - i,
        {
            let ghost pre = buf@;
            let b1 = buf[i + 1] as u32;
            let b3 = buf[i + 3] as u32;
            if (b3 & 0xF8) == 0xF8 && (b1 & 0xF8) == 0xF0 {
                let b2 = buf[i + 2] as u32;
                let b0 = buf[i] as u32;
                let src = (((b1 & 0x07) << 19) | ((b0 & 0xFF) << 11) | ((b3 & 0x07) << 8) | (b2
                    & 0xFF)) << 1;
                let p = #[verifier::truncate] (self.pos.wrapping_add(i) as u32);
                let dest = if self.is_encoder {
                    src.wrapping_add(p)
                } else {
                    src.wrapping_sub(p)
                };
                let dest = dest >> 1;
                buf.set(i + 1, (0xF0 + ((dest >> 19) % 8)) as u8);
                buf.set(i, ((dest >> 11) % 0x100) as u8);
                buf.set(i + 3, (0xF8 + ((dest >> 8) % 8)) as u8);
                buf.set(i + 2, (dest % 0x100) as u8);
                proof {
                    assert(spec_arm_thumb_match(pre, i as int));
                    assert(buf@ == spec_arm_thumb_step(
                        pre,
                        i as int,
                        spec_bcj_p(self.pos, i as int),
                        self.is_encoder,
                    ));
                }
                i = i + 2;
            } else {
                proof {
                    assert(!spec_arm_thumb_match(pre, i as int));
                }
            }
            i = i + 2;
        }
        self.pos = self.pos.wrapping_add(i);
        if i <= len {
            i
        } else {
            len
        }
    }

    /// Rewrites ARM64 branch and corrected page-address instructions.
    fn arm64_code(&mut self, buf: &mut Vec<u8>) -> (r: usize)
        ensures
            final(buf)@.len() == old(buf)@.len(),
            r <= old(buf)@.len(),
            final(buf)@ == spec_arm64_filtered(
                old(buf)@,
                0,
                old(self).pos,
                old(self).is_encoder,
            ),
    {
        let len = buf.len();
        if len < 4 {
            return 0;
        }
        let end = len - 4;
        let mut i: usize = 0;
        while i <= end
            invariant
                buf@.len() == len,
                end + 4 == len,
                i <= end + 4,
                self.pos == old(self).pos,
                self.is_encoder == old(self).is_encoder,
                spec_arm64_filtered(old(buf)@, 0, old(self).pos, old(self).is_encoder)
                    == spec_arm64_filtered(buf@, i as int, old(self).pos, old(self).is_encoder),
            decreases end + 4 - i,
        {
            let ghost pre = buf@;
            let b3 = buf[i + 3] as u32;
            let b2 = buf[i + 2] as u32;
            let b1 = buf[i + 1] as u32;
            let b0 = buf[i] as u32;
            let src = (b3 << 24).wrapping_add(b2 << 16).wrapping_add(b1 << 8).wrapping_add(b0);
            let p = #[verifier::truncate] (self.pos.wrapping_add(i) as u32);
            if (src >> 26) & 0x3F == 0x25 {
                let dest_adr = if self.is_encoder {
                    src.wrapping_add(p >> 2)
                } else {
                    src.wrapping_sub(p >> 2)
                };
                let dest = (dest_adr & 0x03FFFFFF) | (0x94u32 << 24);
                buf.set(i + 3, ((dest >> 24) % 0x100) as u8);
                buf.set(i + 2, ((dest >> 16) % 0x100) as u8);
                buf.set(i + 1, ((dest >> 8) % 0x100) as u8);
                buf.set(i, (dest % 0x100) as u8);
            }
            if (src >> 24) & 0x9F == 0x90 {
                let addr = ((src >> 29) & 3) | ((src >> 3) & 0x001FFFFC);
                if addr.wrapping_add(0x00020000) & 0x001C0000 == 0 {
                    let base = (0x90u32 << 24) | (src & 0x1F);
                    let addr2 = if self.is_encoder {
                        addr.wrapping_add(p >> 12)
                    } else {
                        addr.wrapping_sub(p >> 12)
                    };
                    let dest = base | ((addr2 & 3) << 29) | ((addr2 & 0x0003FFFC) << 3) | (
                    0u32.wrapping_sub(addr2 & 0x00020000) & 0x00E00000);
                    buf.set(i + 3, ((dest >> 24) % 0x100) as u8);
                    buf.set(i + 2, ((dest >> 16) % 0x100) as u8);
                    buf.set(i + 1, ((dest >> 8) % 0x100) as u8);
                    buf.set(i, (dest % 0x100) as u8);
                }
            }
            proof {
                assert(buf@ == spec_arm64_step(
                    pre,
                    i as int,
                    spec_bcj_p(self.pos, i as int),
                    self.is_encoder,
                ));
            }
            i = i + 4;
        }
        self.pos = self.pos.wrapping_add(i);
        if i <= len {
            i
        } else {
            len
        }
    }
}

} // verus!
