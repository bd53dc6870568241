use vstd::prelude::*;

use crate::error::Error;
use crate::header::AssetHeader;
use crate::records::{ThumbnailInfo, UnrealThumbnailInfo, decode_thumbnail};
use crate::serialization::{ArrayStreamInfo, decode_counted_here, widen, widen_i32};

verus! {

/// Hands out the entries of an array one at a time, decoding each at the
/// shared cursor of the header. Moving that cursor elsewhere between two
/// entries makes the next one come from there.
pub struct UnrealArrayIterator {
    stream_info: ArrayStreamInfo,
    next_index: u64,
}

impl UnrealArrayIterator {
    pub closed spec fn info(&self) -> ArrayStreamInfo {
        self.stream_info
    }

    /// How many entries have been handed out.
    pub closed spec fn taken(&self) -> int {
        self.next_index as int
    }

    /// Starts at the first entry: the cursor moves to the array's offset.
    pub fn new(package: &mut AssetHeader, stream_info: ArrayStreamInfo) -> (r: UnrealArrayIterator)
        ensures
            final(package)@ == old(package)@,
            final(package).archive.ctx() == old(package).archive.ctx(),
            final(package).archive.pos() == stream_info.offset,
            r.info() == stream_info,
            r.taken() == 0,
    {
        package.archive.seek_start(stream_info.offset);
        UnrealArrayIterator { stream_info, next_index: 0 }
    }

    /// The next thumbnail entry, decoded at the cursor, or nothing once the
    /// count is reached.
    pub fn next(&mut self, package: &mut AssetHeader) -> (r: Option<Result<ThumbnailInfo, Error>>)
        ensures
            final(package)@ == old(package)@,
            final(package).archive.ctx() == old(package).archive.ctx(),
            final(self).info() == old(self).info(),
            old(self).taken() >= old(self).info().count ==> r is None && final(self).taken() == old(self).taken(),
            old(self).taken() < old(self).info().count ==> final(self).taken() == old(self).taken() + 1 && match decode_thumbnail(
                old(package).archive.ctx().data,
                old(package).archive.pos(),
            ) {
                Ok((v, q)) => r matches Some(Ok(x)) && x@ == v && final(package).archive.pos() == q,
                Err(e) => r matches Some(Err(x)) && x == e,
            },
    {
        if self.next_index < self.stream_info.count {
            self.next_index = self.next_index + 1;
            Some(UnrealThumbnailInfo::parse_inline(&mut package.archive))
        } else {
            None
        }
    }
}

impl AssetHeader {
    /// Moves the cursor to the thumbnail table and reads its count; the entries
    /// are then handed out by the iterator.
    pub fn thumbnail_iter(&mut self) -> (r: Result<UnrealArrayIterator, Error>)
        ensures
            final(self)@ == old(self)@,
            final(self).archive.ctx() == old(self).archive.ctx(),
            match decode_counted_here(old(self).archive.ctx().data, widen(old(self).thumbnail_table_offset) as int) {
                Ok((info, q)) => r matches Ok(it) && it.info() == info && it.taken() == 0
                    && final(self).archive.pos() == q,
                Err(e) => r matches Err(x) && x == e,
            },
    {
        self.archive.seek_start(widen_i32(self.thumbnail_table_offset));
        let info = ArrayStreamInfo::from_current_position(&mut self.archive)?;
        Ok(UnrealArrayIterator::new(self, info))
    }
}

} // verus!
