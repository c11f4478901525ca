use vstd::prelude::*;

verus! {

/// Where an asset came from.
#[derive(Debug)]
pub struct AssetMeta {
    pub id: String,
    pub path: String,
}

/// What an asset holds.
#[derive(Debug)]
pub enum AssetData {
    /// A compiled compute or graphics kernel, handed to the driver as it is.
    SPIRVShader(Vec<u8>),
}

#[derive(Debug)]
pub struct Asset {
    pub meta: AssetMeta,
    pub data: AssetData,
}

/// Why an asset could not be used.
#[derive(Clone, Copy, Debug, PartialEq, Eq)]
pub enum AssetError {
    /// A kernel binary must consist of whole 4-byte words.
    NotWordAligned,
}

/// The little-endian word at byte `4 * k` of `b`.
pub open spec fn word_at(b: Seq<u8>, k: int) -> u32 {
    (b[4 * k] as int + b[4 * k + 1] as int * 0x100 + b[4 * k + 2] as int * 0x1_0000
        + b[4 * k + 3] as int * 0x100_0000) as u32
}

impl Asset {
    /// The kernel binary the asset holds.
    pub fn get_spirv(&self) -> (r: Result<&[u8], AssetError>)
        ensures
            r matches Ok(b) && self.data matches AssetData::SPIRVShader(s) && b@ == s@,
    {
        match &self.data {
            AssetData::SPIRVShader(shader) => Ok(shader.as_slice()),
        }
    }
}

/// A kernel binary as the 32-bit little-endian words that the driver takes.
pub fn spirv_words(bytes: &[u8]) -> (r: Result<Vec<u32>, AssetError>)
    ensures
        bytes@.len() % 4 != 0 <==> r == Err::<Vec<u32>, AssetError>(AssetError::NotWordAligned),
        r matches Ok(w) ==> {
            &&& 4 * w@.len() == bytes@.len()
            &&& forall|k: int| 0 <= k < w@.len() ==> #[trigger] w@[k] == word_at(bytes@, k)
        },
{
    if bytes.len() % 4 != 0 {
        return Err(AssetError::NotWordAligned);
    }
    let len = bytes.len();
    let n = len / 4;
    let mut words: Vec<u32> = Vec::new();
    let mut k: usize = 0;
    while k < n
        invariant
            len == bytes@.len(),
            n * 4 == len,
            k <= n,
            words@.len() == k,
            forall|j: int| 0 <= j < k ==> #[trigger] words@[j] == word_at(bytes@, j),
        decreases n - k,
    {
        assert(4 * k + 4 <= len) by (nonlinear_arith)
            requires
                k < n,
                n * 4 == len,
        ;
        let i = 4 * k;
        let w: u32 = bytes[i] as u32 + bytes[i + 1] as u32 * 0x100 + bytes[i + 2] as u32 * 0x1_0000
            + bytes[i + 3] as u32 * 0x100_0000;
        words.push(w);
        k += 1;
    }
    Ok(words)
}

/// The directory that assets are read from.
#[derive(Debug)]
pub struct AssetManagerInner {
    pub assets_dir: String,
}

/// Names assets by their path under the assets directory.
#[derive(Debug)]
pub struct AssetManager {
    pub inner: AssetManagerInner,
}

impl AssetManagerInner {
    pub fn new(assets_dir: String) -> (r: Self)
        ensures
            r.assets_dir@ == assets_dir@,
    {
        AssetManagerInner { assets_dir }
    }
}

impl AssetManager {
    pub fn new(assets_dir: String) -> (r: Self)
        ensures
            r.inner.assets_dir@ == assets_dir@,
    {
        AssetManager { inner: AssetManagerInner::new(assets_dir) }
    }

    /// The path of asset `id`: the assets directory, a separator, then the id.
    pub fn asset_path(&self, id: &str) -> (r: String)
        ensures
            r@ == self.inner.assets_dir@ + "/"@ + id@,
    {
        let mut path = self.inner.assets_dir.clone();
        path.append("/");
        path.append(id);
        path
    }

    /// The asset `id`, whose file held `contents`.
    pub fn load_asset(&self, id: &str, contents: Vec<u8>) -> (r: Asset)
        ensures
            r.meta.id@ == id@,
            r.meta.path@ == self.inner.assets_dir@ + "/"@ + id@,
            r.data == AssetData::SPIRVShader(contents),
    {
        let meta = AssetMeta { id: String::from_str(id), path: self.asset_path(id) };
        Asset { meta, data: AssetData::SPIRVShader(contents) }
    }
}

} // verus!
