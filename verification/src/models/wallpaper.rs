//! Wallpaper images.

use vstd::prelude::*;

verus! {

/// A wallpaper image.
#[derive(Debug, Clone)]
pub struct WallPapers {
    pub id: u128,
    pub wallpaper: String,
    pub created_at: Option<i64>,
}

} // verus!
