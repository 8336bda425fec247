//! Extra 2D-feature surface: detector and descriptor algorithms.
//!
//! The detection and description mathematics run entirely in the native
//! library. Each algorithm the binding layer exposes is owned through a
//! wrapper holding the non-null handle a native factory call returned; the
//! wrapper gives the handle out to the native calls that run the algorithm,
//! until it is released through the ledger. The numeric constants mirror the
//! native headers bit-exactly.

use vstd::prelude::*;

verus! {

pub const DAISY_NRM_FULL: i32 = 102;

pub const DAISY_NRM_NONE: i32 = 100;

pub const DAISY_NRM_PARTIAL: i32 = 101;

pub const DAISY_NRM_SIFT: i32 = 103;

pub const FREAK_NB_ORIENPAIRS: i32 = 45;

pub const FREAK_NB_PAIRS: i32 = 512;

pub const FREAK_NB_SCALES: i32 = 64;

#[allow(non_upper_case_globals)]
pub const PCTSignatures_GAUSSIAN: i32 = 1;

#[allow(non_upper_case_globals)]
pub const PCTSignatures_HEURISTIC: i32 = 2;

#[allow(non_upper_case_globals)]
pub const PCTSignatures_L0_25: i32 = 0;

#[allow(non_upper_case_globals)]
pub const PCTSignatures_L0_5: i32 = 1;

#[allow(non_upper_case_globals)]
pub const PCTSignatures_L1: i32 = 2;

#[allow(non_upper_case_globals)]
pub const PCTSignatures_L2: i32 = 3;

#[allow(non_upper_case_globals)]
pub const PCTSignatures_L2SQUARED: i32 = 4;

#[allow(non_upper_case_globals)]
pub const PCTSignatures_L5: i32 = 5;

#[allow(non_upper_case_globals)]
pub const PCTSignatures_L_INFINITY: i32 = 6;

#[allow(non_upper_case_globals)]
pub const PCTSignatures_MINUS: i32 = 0;

#[allow(non_upper_case_globals)]
pub const PCTSignatures_NORMAL: i32 = 2;

#[allow(non_upper_case_globals)]
pub const PCTSignatures_REGULAR: i32 = 1;

#[allow(non_upper_case_globals)]
pub const PCTSignatures_UNIFORM: i32 = 0;

/// A detector and a descriptor extractor wrapped together so that detected
/// keypoints carry their affine-invariant elliptic regions. Implemented by
/// the unsafe shell's native-backed algorithm owners.
pub trait AffineFeature2D {
    /// The raw handle of the wrapped native algorithm.
    #[allow(non_snake_case)]
    fn as_raw_AffineFeature2D(&self) -> usize;
}

/// Computes BRIEF descriptors: binary strings sampled around each keypoint.
/// This wrapper owns the algorithm's native handle.
#[allow(non_camel_case_types)]
pub struct BriefDescriptorExtractor {
    ptr: usize,
}

impl BriefDescriptorExtractor {
    /// The handle this wrapper owns: the non-null native address it was
    /// built from.
    pub closed spec fn handle(&self) -> usize {
        self.ptr
    }

    /// The wrapper never holds the null handle.
    pub open spec fn wf(&self) -> bool {
        self.handle() != 0
    }

    /// Wraps the handle a native factory call returned. Only a non-null
    /// handle denotes an allocated algorithm.
    pub fn from_raw_ptr(ptr: usize) -> (r: BriefDescriptorExtractor)
        requires
            ptr != 0,
        ensures
            r.wf(),
            r.handle() == ptr,
    {
        BriefDescriptorExtractor { ptr }
    }

    /// The raw handle, as the native calls that run the algorithm expect it.
    #[allow(non_snake_case)]
    pub fn as_raw_BriefDescriptorExtractor(&self) -> (r: usize)
        ensures
            r == self.handle(),
    {
        self.ptr
    }
}

/// A keypoint augmented with the elliptic region an affine adaptation found around it.
/// This wrapper owns the keypoint object's native handle.
#[allow(non_camel_case_types)]
pub struct Elliptic_KeyPoint {
    ptr: usize,
}

impl Elliptic_KeyPoint {
    /// The handle this wrapper owns: the non-null native address it was
    /// built from.
    pub closed spec fn handle(&self) -> usize {
        self.ptr
    }

    /// The wrapper never holds the null handle.
    pub open spec fn wf(&self) -> bool {
        self.handle() != 0
    }

    /// Wraps the handle a native factory call returned. Only a non-null
    /// handle denotes an allocated keypoint object.
    pub fn from_raw_ptr(ptr: usize) -> (r: Elliptic_KeyPoint)
        requires
            ptr != 0,
        ensures
            r.wf(),
            r.handle() == ptr,
    {
        Elliptic_KeyPoint { ptr }
    }

    /// The raw handle, as the native calls that take this keypoint expect it.
    #[allow(non_snake_case)]
    pub fn as_raw_Elliptic_KeyPoint(&self) -> (r: usize)
        ensures
            r == self.handle(),
    {
        self.ptr
    }
}

/// Computes FREAK descriptors: retina-inspired binary comparisons over a log-polar pattern.
/// This wrapper owns the algorithm's native handle.
#[allow(non_camel_case_types)]
pub struct FREAK {
    ptr: usize,
}

impl FREAK {
    /// The handle this wrapper owns: the non-null native address it was
    /// built from.
    pub closed spec fn handle(&self) -> usize {
        self.ptr
    }

    /// The wrapper never holds the null handle.
    pub open spec fn wf(&self) -> bool {
        self.handle() != 0
    }

    /// Wraps the handle a native factory call returned. Only a non-null
    /// handle denotes an allocated algorithm.
    pub fn from_raw_ptr(ptr: usize) -> (r: FREAK)
        requires
            ptr != 0,
        ensures
            r.wf(),
            r.handle() == ptr,
    {
        FREAK { ptr }
    }

    /// The raw handle, as the native calls that run the algorithm expect it.
    #[allow(non_snake_case)]
    pub fn as_raw_FREAK(&self) -> (r: usize)
        ensures
            r == self.handle(),
    {
        self.ptr
    }
}

/// Detects Harris-Laplace corners: Harris response selected over a Laplacian scale space.
/// This wrapper owns the algorithm's native handle.
#[allow(non_camel_case_types)]
pub struct HarrisLaplaceFeatureDetector {
    ptr: usize,
}

impl HarrisLaplaceFeatureDetector {
    /// The handle this wrapper owns: the non-null native address it was
    /// built from.
    pub closed spec fn handle(&self) -> usize {
        self.ptr
    }

    /// The wrapper never holds the null handle.
    pub open spec fn wf(&self) -> bool {
        self.handle() != 0
    }

    /// Wraps the handle a native factory call returned. Only a non-null
    /// handle denotes an allocated algorithm.
    pub fn from_raw_ptr(ptr: usize) -> (r: HarrisLaplaceFeatureDetector)
        requires
            ptr != 0,
        ensures
            r.wf(),
            r.handle() == ptr,
    {
        HarrisLaplaceFeatureDetector { ptr }
    }

    /// The raw handle, as the native calls that run the algorithm expect it.
    #[allow(non_snake_case)]
    pub fn as_raw_HarrisLaplaceFeatureDetector(&self) -> (r: usize)
        ensures
            r == self.handle(),
    {
        self.ptr
    }
}

/// Computes LATCH descriptors: binary comparisons of patch triplets.
/// This wrapper owns the algorithm's native handle.
#[allow(non_camel_case_types)]
pub struct LATCH {
    ptr: usize,
}

impl LATCH {
    /// The handle this wrapper owns: the non-null native address it was
    /// built from.
    pub closed spec fn handle(&self) -> usize {
        self.ptr
    }

    /// The wrapper never holds the null handle.
    pub open spec fn wf(&self) -> bool {
        self.handle() != 0
    }

    /// Wraps the handle a native factory call returned. Only a non-null
    /// handle denotes an allocated algorithm.
    pub fn from_raw_ptr(ptr: usize) -> (r: LATCH)
        requires
            ptr != 0,
        ensures
            r.wf(),
            r.handle() == ptr,
    {
        LATCH { ptr }
    }

    /// The raw handle, as the native calls that run the algorithm expect it.
    #[allow(non_snake_case)]
    pub fn as_raw_LATCH(&self) -> (r: usize)
        ensures
            r == self.handle(),
    {
        self.ptr
    }
}

/// Computes LUCID descriptors: order permutations of blurred patch intensities.
/// This wrapper owns the algorithm's native handle.
#[allow(non_camel_case_types)]
pub struct LUCID {
    ptr: usize,
}

impl LUCID {
    /// The handle this wrapper owns: the non-null native address it was
    /// built from.
    pub closed spec fn handle(&self) -> usize {
        self.ptr
    }

    /// The wrapper never holds the null handle.
    pub open spec fn wf(&self) -> bool {
        self.handle() != 0
    }

    /// Wraps the handle a native factory call returned. Only a non-null
    /// handle denotes an allocated algorithm.
    pub fn from_raw_ptr(ptr: usize) -> (r: LUCID)
        requires
            ptr != 0,
        ensures
            r.wf(),
            r.handle() == ptr,
    {
        LUCID { ptr }
    }

    /// The raw handle, as the native calls that run the algorithm expect it.
    #[allow(non_snake_case)]
    pub fn as_raw_LUCID(&self) -> (r: usize)
        ensures
            r == self.handle(),
    {
        self.ptr
    }
}

/// Detects maximal self-dissimilarity interest points.
/// This wrapper owns the algorithm's native handle.
#[allow(non_camel_case_types)]
pub struct MSDDetector {
    ptr: usize,
}

impl MSDDetector {
    /// The handle this wrapper owns: the non-null native address it was
    /// built from.
    pub closed spec fn handle(&self) -> usize {
        self.ptr
    }

    /// The wrapper never holds the null handle.
    pub open spec fn wf(&self) -> bool {
        self.handle() != 0
    }

    /// Wraps the handle a native factory call returned. Only a non-null
    /// handle denotes an allocated algorithm.
    pub fn from_raw_ptr(ptr: usize) -> (r: MSDDetector)
        requires
            ptr != 0,
        ensures
            r.wf(),
            r.handle() == ptr,
    {
        MSDDetector { ptr }
    }

    /// The raw handle, as the native calls that run the algorithm expect it.
    #[allow(non_snake_case)]
    pub fn as_raw_MSDDetector(&self) -> (r: usize)
        ensures
            r == self.handle(),
    {
        self.ptr
    }
}

/// Detects and describes SIFT features: scale-space extrema with gradient-histogram descriptors.
/// This wrapper owns the algorithm's native handle.
#[allow(non_camel_case_types)]
pub struct SIFT {
    ptr: usize,
}

impl SIFT {
    /// The handle this wrapper owns: the non-null native address it was
    /// built from.
    pub closed spec fn handle(&self) -> usize {
        self.ptr
    }

    /// The wrapper never holds the null handle.
    pub open spec fn wf(&self) -> bool {
        self.handle() != 0
    }

    /// Wraps the handle a native factory call returned. Only a non-null
    /// handle denotes an allocated algorithm.
    pub fn from_raw_ptr(ptr: usize) -> (r: SIFT)
        requires
            ptr != 0,
        ensures
            r.wf(),
            r.handle() == ptr,
    {
        SIFT { ptr }
    }

    /// The raw handle, as the native calls that run the algorithm expect it.
    #[allow(non_snake_case)]
    pub fn as_raw_SIFT(&self) -> (r: usize)
        ensures
            r == self.handle(),
    {
        self.ptr
    }
}

/// Detects StarDetector (CenSurE) interest points.
/// This wrapper owns the algorithm's native handle.
#[allow(non_camel_case_types)]
pub struct StarDetector {
    ptr: usize,
}

impl StarDetector {
    /// The handle this wrapper owns: the non-null native address it was
    /// built from.
    pub closed spec fn handle(&self) -> usize {
        self.ptr
    }

    /// The wrapper never holds the null handle.
    pub open spec fn wf(&self) -> bool {
        self.handle() != 0
    }

    /// Wraps the handle a native factory call returned. Only a non-null
    /// handle denotes an allocated algorithm.
    pub fn from_raw_ptr(ptr: usize) -> (r: StarDetector)
        requires
            ptr != 0,
        ensures
            r.wf(),
            r.handle() == ptr,
    {
        StarDetector { ptr }
    }

    /// The raw handle, as the native calls that run the algorithm expect it.
    #[allow(non_snake_case)]
    pub fn as_raw_StarDetector(&self) -> (r: usize)
        ensures
            r == self.handle(),
    {
        self.ptr
    }
}

} // verus!
