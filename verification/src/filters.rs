use vstd::prelude::*;

use crate::error::Error;

verus! {

/// The filter configuration of a dataset's chunk pipeline.
///
/// The filters themselves (deflate, byte shuffle, checksum, scale-offset)
/// run inside the native library; this type records which of them a builder
/// asks for and validates the configuration before it is handed across.
#[derive(Clone, Copy, Debug, PartialEq)]
pub struct Filters {
    pub gzip: Option<u8>,
    pub shuffle: bool,
    pub fletcher32: bool,
    pub scale_offset: Option<u32>,
}

impl Filters {
    /// The configuration with every filter disabled.
    pub open spec fn spec_default() -> Filters {
        Filters { gzip: None, shuffle: false, fletcher32: false, scale_offset: None }
    }

    /// A gzip level is acceptable only up to 9.
    pub open spec fn spec_valid(&self) -> bool {
        self.gzip matches Some(level) ==> level <= 9
    }

    /// A configuration with every filter disabled.
    pub fn new() -> (r: Filters)
        ensures
            r == Filters::spec_default(),
    {
        Filters { gzip: None, shuffle: false, fletcher32: false, scale_offset: None }
    }

    /// Enable gzip compression at the given level.
    pub fn gzip(&mut self, level: u8) -> (r: &mut Self)
        ensures
            *r == (Filters { gzip: Some(level), ..*old(self) }),
            *final(self) == *final(r),
    {
        self.gzip = Some(level);
        self
    }

    /// Enable or disable the byte-shuffle filter.
    pub fn shuffle(&mut self, shuffle: bool) -> (r: &mut Self)
        ensures
            *r == (Filters { shuffle, ..*old(self) }),
            *final(self) == *final(r),
    {
        self.shuffle = shuffle;
        self
    }

    /// Enable or disable the checksum filter.
    pub fn fletcher32(&mut self, fletcher32: bool) -> (r: &mut Self)
        ensures
            *r == (Filters { fletcher32, ..*old(self) }),
            *final(self) == *final(r),
    {
        self.fletcher32 = fletcher32;
        self
    }

    /// Enable the scale-offset filter with the given factor.
    pub fn scale_offset(&mut self, scale_offset: u32) -> (r: &mut Self)
        ensures
            *r == (Filters { scale_offset: Some(scale_offset), ..*old(self) }),
            *final(self) == *final(r),
    {
        self.scale_offset = Some(scale_offset);
        self
    }

    pub fn get_gzip(&self) -> (r: Option<u8>)
        ensures
            r == self.gzip,
    {
        self.gzip
    }

    pub fn get_shuffle(&self) -> (r: bool)
        ensures
            r == self.shuffle,
    {
        self.shuffle
    }

    pub fn get_fletcher32(&self) -> (r: bool)
        ensures
            r == self.fletcher32,
    {
        self.fletcher32
    }

    pub fn get_scale_offset(&self) -> (r: Option<u32>)
        ensures
            r == self.scale_offset,
    {
        self.scale_offset
    }

    /// Check the configuration before it is handed to the native pipeline.
    pub fn validate(&self) -> (r: Result<(), Error>)
        ensures
            r is Ok <==> self.spec_valid(),
            r matches Err(e) ==> (self.gzip matches Some(level) && level > 9 && e
                == Error::InvalidGzipLevel(level)),
    {
        match self.gzip {
            Some(level) => {
                if level > 9 {
                    Err(Error::InvalidGzipLevel(level))
                } else {
                    Ok(())
                }
            },
            None => Ok(()),
        }
    }
}

impl Default for Filters {
    /// The default configuration has every filter disabled.
    fn default() -> (r: Filters)
        ensures
            r == Filters::spec_default(),
    {
        Filters::new()
    }
}

} // verus!
