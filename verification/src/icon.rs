//! Icon descriptions and the manager that resolves the running
//! program's own icon, normalized across platform capabilities.

use crate::raster::{pixel_buffer_wf, IconError, PixelBuffer};
use vstd::prelude::*;

verus! {

/// A transport-ready icon: dimensions, raw bytes, and a tag naming the
/// byte layout.  An empty tag means "no icon", `rgba` means 4 bytes per
/// pixel (blue, green, red, alpha; rows top-down), and any other tag
/// (such as `png`) names a self-contained compressed stream.
#[derive(Debug)]
pub struct IconInfo {
    pub width: u32,
    pub height: u32,
    pub data: Vec<u8>,
    pub format: String,
}

/// The invariant every icon the library hands out satisfies: the empty
/// tag carries nothing at all, the raw tag carries exactly four bytes
/// per pixel, and a compressed tag carries a non-empty stream.
pub open spec fn icon_info_wf(i: IconInfo) -> bool {
    &&& (i.format@ == Seq::<char>::empty() ==> i.width == 0 && i.height == 0 && i.data@.len()
        == 0)
    &&& (i.format@ == "rgba"@ ==> i.data@.len() == i.width * i.height * 4)
    &&& (i.format@ != Seq::<char>::empty() && i.format@ != "rgba"@ ==> i.data@.len() > 0)
}

/// The platform capability the manager runs under: only one platform
/// has the native packed-icon subsystem; the others report the benign
/// empty icon rather than fail.
#[derive(Clone, Copy, Debug, PartialEq, Eq, Structural)]
pub enum Platform {
    /// Native icon extraction is available.
    Windows,
    /// No extraction facility; the empty icon is reported.
    MacOs,
    /// No extraction facility; the empty icon is reported.
    Linux,
    /// No capability at all; the empty icon is reported.
    Other,
}

/// Resolves icons for executables.
pub struct IconManager {}

impl IconManager {
    pub fn new() -> (r: Self)
        ensures
            r == (IconManager {  }),
    {
        IconManager {  }
    }

    /// The unsupported-platform stub where only a bundled resource fork
    /// exists: extraction has no facility here, so the zero-size,
    /// empty-format icon is reported — a capability gap, not a fault.
    pub fn get_macos_app_icon(&self) -> (r: Result<IconInfo, IconError>)
        ensures
            r matches Ok(i) && i.width == 0 && i.height == 0 && i.data@.len() == 0 && i.format@
                == Seq::<char>::empty(),
            r matches Ok(i) ==> icon_info_wf(i),
    {
        Ok(IconInfo { width: 0, height: 0, data: Vec::new(), format: String::new() })
    }

    /// The unsupported-platform stub where only a desktop-file
    /// association exists: extraction has no facility here, so the
    /// zero-size, empty-format icon is reported.
    pub fn get_linux_app_icon(&self) -> (r: Result<IconInfo, IconError>)
        ensures
            r matches Ok(i) && i.width == 0 && i.height == 0 && i.data@.len() == 0 && i.format@
                == Seq::<char>::empty(),
            r matches Ok(i) ==> icon_info_wf(i),
    {
        Ok(IconInfo { width: 0, height: 0, data: Vec::new(), format: String::new() })
    }

    /// Resolves the executable's icon for the given platform capability.
    /// On the extraction-capable platform, `native` is the outcome of a
    /// raster session on the executable's path (see `crate::raster`) and
    /// is passed through; every other platform lacks the extraction
    /// facility and reports the empty icon.  Never panics: absence of an
    /// icon is a value, not a fault.
    pub fn get_executable_icon(&self, platform: Platform, native: Option<
        Result<PixelBuffer, IconError>,
    >) -> (r: Result<IconInfo, IconError>)
        requires
            native matches Some(Ok(pb)) ==> pixel_buffer_wf(pb),
        ensures
            platform is Windows ==> (match native {
                Some(Ok(pb)) => (r matches Ok(i) && i.width == pb.width && i.height == pb.height
                    && i.data@ == pb.data@ && i.format@ == "rgba"@),
                Some(Err(e)) => (r matches Err(got) && got == e),
                None => r == Err::<IconInfo, IconError>(IconError::NoIconFound),
            }),
            !(platform is Windows) ==> (r matches Ok(i) && i.width == 0 && i.height == 0
                && i.data@.len() == 0 && i.format@ == Seq::<char>::empty()),
            r matches Ok(i) ==> icon_info_wf(i),
    {
        match platform {
            Platform::Windows => {
                match native {
                    Some(outcome) => {
                        match outcome {
                            Ok(pb) => {
                                let i = IconInfo {
                                    width: pb.width,
                                    height: pb.height,
                                    data: pb.data,
                                    format: String::from_str("rgba"),
                                };
                                proof {
                                    reveal_strlit("rgba");
                                    assert(i.format@.len() == 4);
                                }
                                Ok(i)
                            },
                            Err(e) => Err(e),
                        }
                    },
                    None => Err(IconError::NoIconFound),
                }
            },
            Platform::MacOs => self.get_macos_app_icon(),
            Platform::Linux => self.get_linux_app_icon(),
            Platform::Other => {
                Ok(IconInfo { width: 0, height: 0, data: Vec::new(), format: String::new() })
            },
        }
    }
}

} // verus!
