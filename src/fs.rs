//! File-system constants exposed to scripts, and the access check behind
//! `fsPromises.access(path, mode)`.
use vstd::prelude::*;

verus! {

pub const UV_FS_SYMLINK_DIR: u16 = 1;
pub const UV_FS_SYMLINK_JUNCTION: u16 = 2;
pub const O_RDONLY: u16 = 0;
pub const O_WRONLY: u16 = 1;
pub const O_RDWR: u16 = 2;
pub const UV_DIRENT_UNKNOWN: u16 = 0;
pub const UV_DIRENT_FILE: u16 = 1;
pub const UV_DIRENT_DIR: u16 = 2;
pub const UV_DIRENT_LINK: u16 = 3;
pub const UV_DIRENT_FIFO: u16 = 4;
pub const UV_DIRENT_SOCKET: u16 = 5;
pub const UV_DIRENT_CHAR: u16 = 6;
pub const UV_DIRENT_BLOCK: u16 = 7;
pub const S_IFMT: u16 = 61440;
pub const S_IFREG: u16 = 32768;
pub const S_IFDIR: u16 = 16384;
pub const S_IFCHR: u16 = 8192;
pub const S_IFBLK: u16 = 24576;
pub const S_IFIFO: u16 = 4096;
pub const S_IFLNK: u16 = 40960;
pub const S_IFSOCK: u16 = 49152;
pub const O_CREAT: u16 = 64;
pub const O_EXCL: u16 = 128;
pub const UV_FS_O_FILEMAP: u16 = 0;
pub const O_NOCTTY: u16 = 256;
pub const O_TRUNC: u16 = 512;
pub const O_APPEND: u16 = 1024;
pub const O_DIRECTORY: u32 = 65536;
pub const O_NOATIME: u32 = 262144;
pub const O_NOFOLLOW: u32 = 131072;
pub const O_SYNC: u32 = 1052672;
pub const O_DSYNC: u16 = 4096;
pub const O_DIRECT: u16 = 16384;
pub const O_NONBLOCK: u16 = 2048;
pub const S_IRWXU: u16 = 448;
pub const S_IRUSR: u16 = 256;
pub const S_IWUSR: u16 = 128;
pub const S_IXUSR: u16 = 64;
pub const S_IRWXG: u16 = 56;
pub const S_IRGRP: u16 = 32;
pub const S_IWGRP: u16 = 16;
pub const S_IXGRP: u16 = 8;
pub const S_IRWXO: u16 = 7;
pub const S_IROTH: u16 = 4;
pub const S_IWOTH: u16 = 2;
pub const S_IXOTH: u16 = 1;
pub const F_OK: u8 = 0;
pub const R_OK: u8 = 4;
pub const W_OK: u8 = 2;
pub const X_OK: u8 = 1;
pub const UV_FS_COPYFILE_EXCL: u16 = 1;
pub const COPYFILE_EXCL: u16 = 1;
pub const UV_FS_COPYFILE_FICLONE: u16 = 2;
pub const COPYFILE_FICLONE: u16 = 2;
pub const UV_FS_COPYFILE_FICLONE_FORCE: u16 = 4;
pub const COPYFILE_FICLONE_FORCE: u16 = 4;

/// What the access check reads of a file's metadata.
#[derive(Clone, Copy, Debug, PartialEq, Eq, Structural)]
pub struct FileStat {
    /// Permission bits (`st_mode`).
    pub mode: u32,
    /// Owner.
    pub uid: u32,
    /// Group.
    pub gid: u32,
}

/// One permission is granted when the "other" class has it, or the process
/// owns the file and the owner class has it, or the process is in the file's
/// group and the group class has it.
pub open spec fn class_allows(
    st: FileStat,
    uid: u32,
    gid: u32,
    other_bit: u32,
    group_bit: u32,
    owner_bit: u32,
) -> bool {
    (st.mode & other_bit) != 0 || (st.uid == uid && (st.mode & owner_bit) != 0) || (st.gid == gid
        && (st.mode & group_bit) != 0)
}

pub open spec fn may_read(st: FileStat, uid: u32, gid: u32) -> bool {
    class_allows(st, uid, gid, 0o004, 0o040, 0o400)
}

pub open spec fn may_write(st: FileStat, uid: u32, gid: u32) -> bool {
    class_allows(st, uid, gid, 0o002, 0o020, 0o200)
}

pub open spec fn may_execute(st: FileStat, uid: u32, gid: u32) -> bool {
    class_allows(st, uid, gid, 0o001, 0o010, 0o100)
}

/// Every permission requested in `mode` (a combination of `R_OK`, `W_OK`,
/// `X_OK`) is granted to a process with this user and group id.
pub open spec fn access_granted(mode: u8, st: FileStat, uid: u32, gid: u32) -> bool {
    &&& (mode & R_OK) != 0 ==> may_read(st, uid, gid)
    &&& (mode & W_OK) != 0 ==> may_write(st, uid, gid)
    &&& (mode & X_OK) != 0 ==> may_execute(st, uid, gid)
}

proof fn lemma_granted_mask(m: u32, w: u32, o: u32, g: u32)
    requires
        o == 0 || o == 0xffff_ffff,
        g == 0 || g == 0xffff_ffff,
    ensures
        (w & 7 & !((m & 7) | ((m >> 6) & 7 & o) | ((m >> 3) & 7 & g)) == 0) <==> ({
            &&& (w & 4) != 0 ==> ((m & 0o004) != 0 || (o != 0 && (m & 0o400) != 0) || (g != 0
                && (m & 0o040) != 0))
            &&& (w & 2) != 0 ==> ((m & 0o002) != 0 || (o != 0 && (m & 0o200) != 0) || (g != 0
                && (m & 0o020) != 0))
            &&& (w & 1) != 0 ==> ((m & 0o001) != 0 || (o != 0 && (m & 0o100) != 0) || (g != 0
                && (m & 0o010) != 0))
        }),
{
    assert((w & 7 & !((m & 7) | ((m >> 6) & 7 & o) | ((m >> 3) & 7 & g)) == 0) <==> ({
        &&& (w & 4) != 0 ==> ((m & 0o004) != 0 || (o != 0 && (m & 0o400) != 0) || (g != 0 && (m
            & 0o040) != 0))
        &&& (w & 2) != 0 ==> ((m & 0o002) != 0 || (o != 0 && (m & 0o200) != 0) || (g != 0 && (m
            & 0o020) != 0))
        &&& (w & 1) != 0 ==> ((m & 0o001) != 0 || (o != 0 && (m & 0o100) != 0) || (g != 0 && (m
            & 0o010) != 0))
    })) by (bit_vector)
        requires
            o == 0 || o == 0xffff_ffff,
            g == 0 || g == 0xffff_ffff,
    ;
}

proof fn lemma_mode_bits(mode: u8)
    ensures
        ((mode & R_OK) != 0) == (((mode as u32) & 4) != 0),
        ((mode & W_OK) != 0) == (((mode as u32) & 2) != 0),
        ((mode & X_OK) != 0) == (((mode as u32) & 1) != 0),
{
    assert(((mode & 4) != 0) == (((mode as u32) & 4) != 0)) by (bit_vector);
    assert(((mode & 2) != 0) == (((mode as u32) & 2) != 0)) by (bit_vector);
    assert(((mode & 1) != 0) == (((mode as u32) & 1) != 0)) by (bit_vector);
}

/// Whether a process with effective ids `uid` and `gid` has every permission
/// requested in `mode` on a file with this metadata.
pub fn access_allowed(mode: u8, st: FileStat, uid: u32, gid: u32) -> (r: bool)
    ensures
        r == access_granted(mode, st, uid, gid),
{
    let owner_mask: u32 = if st.uid == uid {
        0xffff_ffff
    } else {
        0
    };
    let group_mask: u32 = if st.gid == gid {
        0xffff_ffff
    } else {
        0
    };
    let granted: u32 = (st.mode & 7) | ((st.mode >> 6) & 7 & owner_mask) | ((st.mode >> 3) & 7
        & group_mask);
    let wanted: u32 = mode as u32;
    proof {
        lemma_granted_mask(st.mode, wanted, owner_mask, group_mask);
        lemma_mode_bits(mode);
    }
    wanted & 7 & !granted == 0
}

/// Outcome of `fsPromises.access(path, mode)`: the promise resolves only when
/// the file could be opened and its metadata read (`stat` is then `Some`) and
/// every requested permission is granted.
pub fn access_verdict(stat: Option<FileStat>, mode: u8, uid: u32, gid: u32) -> (r: bool)
    ensures
        r == match stat {
            Some(st) => access_granted(mode, st, uid, gid),
            None => false,
        },
{
    match stat {
        Some(st) => access_allowed(mode, st, uid, gid),
        None => false,
    }
}

} // verus!
