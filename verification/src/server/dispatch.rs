//! Routing received requests to per-operation handlers.

use vstd::prelude::*;

use crate::kernel::{
    FUSE_ACCESS,
    FUSE_BATCH_FORGET,
    FUSE_BMAP,
    FUSE_COPY_FILE_RANGE,
    FUSE_CREATE,
    FUSE_DESTROY,
    FUSE_FALLOCATE,
    FUSE_FLUSH,
    FUSE_FORGET,
    FUSE_FSYNC,
    FUSE_FSYNCDIR,
    FUSE_GETATTR,
    FUSE_GETLK,
    FUSE_GETXATTR,
    FUSE_INTERRUPT,
    FUSE_IOCTL,
    FUSE_LINK,
    FUSE_LISTXATTR,
    FUSE_LOOKUP,
    FUSE_LSEEK,
    FUSE_MKDIR,
    FUSE_MKNOD,
    FUSE_OPEN,
    FUSE_OPENDIR,
    FUSE_POLL,
    FUSE_READ,
    FUSE_READDIR,
    FUSE_READDIRPLUS,
    FUSE_READLINK,
    FUSE_RELEASE,
    FUSE_RELEASEDIR,
    FUSE_REMOVEXATTR,
    FUSE_RENAME,
    FUSE_RENAME2,
    FUSE_RMDIR,
    FUSE_SETATTR,
    FUSE_SETLK,
    FUSE_SETLKW,
    FUSE_SETXATTR,
    FUSE_STATFS,
    FUSE_SYMLINK,
    FUSE_SYNCFS,
    FUSE_UNLINK,
    FUSE_WRITE,
};
use crate::error::RequestError;
use crate::kernel::FuseInHeader;
use crate::server::{CuseRequest, FuseRequest};

verus! {

/// Observers of dispatch events. Each method does nothing unless overridden.
pub trait Hooks {
    /// A request was received.
    fn request(&self, header: FuseInHeader) {
        let _ = header;
    }

    /// A request could not be decoded.
    fn request_error(&self, header: FuseInHeader, error: RequestError) {
        let _ = header;
        let _ = error;
    }

    /// A request had an opcode no handler knows.
    fn unknown_opcode(&self, header: FuseInHeader) {
        let _ = header;
    }

    /// A request went to a handler that was not implemented.
    fn unimplemented(&self, header: FuseInHeader) {
        let _ = header;
    }
}

/// The handler a CUSE request goes to.
#[derive(Clone, Copy, Debug, PartialEq, Eq, Structural)]
pub enum CuseHandler {
    /// `FUSE_FLUSH`.
    Flush,
    /// `FUSE_FSYNC`.
    Fsync,
    /// `FUSE_INTERRUPT`.
    Interrupt,
    /// `FUSE_IOCTL`.
    Ioctl,
    /// `FUSE_OPEN`.
    Open,
    /// `FUSE_POLL`.
    Poll,
    /// `FUSE_READ`.
    Read,
    /// `FUSE_RELEASE`.
    Release,
    /// `FUSE_WRITE`.
    Write,
    /// Any other opcode.
    Unimplemented,
}

/// The handler for a CUSE request with opcode `opcode`.
pub open spec fn spec_cuse_route(opcode: u32) -> CuseHandler {
    if opcode == FUSE_FLUSH {
        CuseHandler::Flush
    } else if opcode == FUSE_FSYNC {
        CuseHandler::Fsync
    } else if opcode == FUSE_INTERRUPT {
        CuseHandler::Interrupt
    } else if opcode == FUSE_IOCTL {
        CuseHandler::Ioctl
    } else if opcode == FUSE_OPEN {
        CuseHandler::Open
    } else if opcode == FUSE_POLL {
        CuseHandler::Poll
    } else if opcode == FUSE_READ {
        CuseHandler::Read
    } else if opcode == FUSE_RELEASE {
        CuseHandler::Release
    } else if opcode == FUSE_WRITE {
        CuseHandler::Write
    } else {
        CuseHandler::Unimplemented
    }
}

/// Chooses the handler for a CUSE request with opcode `opcode`.
pub fn cuse_route(opcode: u32) -> (r: CuseHandler)
    ensures
        r == spec_cuse_route(opcode),
{
    if opcode == FUSE_FLUSH {
        CuseHandler::Flush
    } else if opcode == FUSE_FSYNC {
        CuseHandler::Fsync
    } else if opcode == FUSE_INTERRUPT {
        CuseHandler::Interrupt
    } else if opcode == FUSE_IOCTL {
        CuseHandler::Ioctl
    } else if opcode == FUSE_OPEN {
        CuseHandler::Open
    } else if opcode == FUSE_POLL {
        CuseHandler::Poll
    } else if opcode == FUSE_READ {
        CuseHandler::Read
    } else if opcode == FUSE_RELEASE {
        CuseHandler::Release
    } else if opcode == FUSE_WRITE {
        CuseHandler::Write
    } else {
        CuseHandler::Unimplemented
    }
}

/// Whether the FUSE handler `handler` answers its request; forgets and
/// interrupts expect no reply.
pub open spec fn spec_fuse_handler_replies(handler: FuseHandler) -> bool {
    !(handler is Forget || handler is BatchForget || handler is Interrupt)
}

/// Whether the CUSE handler `handler` answers its request; an interrupt
/// expects no reply.
pub open spec fn spec_cuse_handler_replies(handler: CuseHandler) -> bool {
    !(handler is Interrupt)
}

/// Whether `handlers` passed `request` to the handler its opcode names: a
/// request that expects a reply was taken by that handler, or passed on to
/// `unimplemented`.
pub open spec fn spec_cuse_dispatched<H: CuseHandlers + ?Sized>(handlers: &H, request: CuseRequest<'_>) -> bool {
    let handler = spec_cuse_route(request.inner.spec_header().opcode);
    spec_cuse_handler_replies(handler) ==> handlers.spec_handled(handler, request) || handlers.spec_handled(
        CuseHandler::Unimplemented,
        request,
    )
}

/// Handlers for the requests of a CUSE session, one method per
/// operation. Each handler that is not overridden passes its request to
/// [`unimplemented`](Self::unimplemented), except those for requests that
/// expect no reply, which drop it.
pub trait CuseHandlers {
    /// Whether this implementation's handler `handler` has taken `request`.
    /// An implementation says what that means for the handlers it defines;
    /// by default nothing is said.
    open spec fn spec_handled(&self, handler: CuseHandler, request: CuseRequest<'_>) -> bool {
        true
    }

    /// Handles a request that no other handler takes.
    fn unimplemented(&self, request: CuseRequest<'_>)
        ensures
            self.spec_handled(CuseHandler::Unimplemented, request),
    ;

    /// Passes `request` to the handler its opcode names.
    fn dispatch(&self, request: CuseRequest<'_>)
        ensures
            ({
                let handler = spec_cuse_route(request.inner.spec_header().opcode);
                spec_cuse_handler_replies(handler) ==> self.spec_handled(handler, request)
                    || self.spec_handled(CuseHandler::Unimplemented, request)
            }),
    {
        match cuse_route(request.header().opcode) {
            CuseHandler::Flush => self.flush(request),
            CuseHandler::Fsync => self.fsync(request),
            CuseHandler::Interrupt => self.interrupt(request),
            CuseHandler::Ioctl => self.ioctl(request),
            CuseHandler::Open => self.open(request),
            CuseHandler::Poll => self.poll(request),
            CuseHandler::Read => self.read(request),
            CuseHandler::Release => self.release(request),
            CuseHandler::Write => self.write(request),
            CuseHandler::Unimplemented => self.unimplemented(request),
        }
    }

    /// Handles `FUSE_FLUSH`.
    fn flush(&self, request: CuseRequest<'_>)
        ensures
            self.spec_handled(CuseHandler::Flush, request) || self.spec_handled(CuseHandler::Unimplemented, request),
    {
        self.unimplemented(request)
    }

    /// Handles `FUSE_FSYNC`.
    fn fsync(&self, request: CuseRequest<'_>)
        ensures
            self.spec_handled(CuseHandler::Fsync, request) || self.spec_handled(CuseHandler::Unimplemented, request),
    {
        self.unimplemented(request)
    }

    /// Handles `FUSE_INTERRUPT`.
    fn interrupt(&self, request: CuseRequest<'_>) {
        let _ = request;
    }

    /// Handles `FUSE_IOCTL`.
    fn ioctl(&self, request: CuseRequest<'_>)
        ensures
            self.spec_handled(CuseHandler::Ioctl, request) || self.spec_handled(CuseHandler::Unimplemented, request),
    {
        self.unimplemented(request)
    }

    /// Handles `FUSE_OPEN`.
    fn open(&self, request: CuseRequest<'_>)
        ensures
            self.spec_handled(CuseHandler::Open, request) || self.spec_handled(CuseHandler::Unimplemented, request),
    {
        self.unimplemented(request)
    }

    /// Handles `FUSE_POLL`.
    fn poll(&self, request: CuseRequest<'_>)
        ensures
            self.spec_handled(CuseHandler::Poll, request) || self.spec_handled(CuseHandler::Unimplemented, request),
    {
        self.unimplemented(request)
    }

    /// Handles `FUSE_READ`.
    fn read(&self, request: CuseRequest<'_>)
        ensures
            self.spec_handled(CuseHandler::Read, request) || self.spec_handled(CuseHandler::Unimplemented, request),
    {
        self.unimplemented(request)
    }

    /// Handles `FUSE_RELEASE`.
    fn release(&self, request: CuseRequest<'_>)
        ensures
            self.spec_handled(CuseHandler::Release, request) || self.spec_handled(CuseHandler::Unimplemented, request),
    {
        self.unimplemented(request)
    }

    /// Handles `FUSE_WRITE`.
    fn write(&self, request: CuseRequest<'_>)
        ensures
            self.spec_handled(CuseHandler::Write, request) || self.spec_handled(CuseHandler::Unimplemented, request),
    {
        self.unimplemented(request)
    }
}

/// The handler a FUSE request goes to.
#[derive(Clone, Copy, Debug, PartialEq, Eq, Structural)]
pub enum FuseHandler {
    /// `FUSE_ACCESS`.
    Access,
    /// `FUSE_BATCH_FORGET`.
    BatchForget,
    /// `FUSE_BMAP`.
    Bmap,
    /// `FUSE_COPY_FILE_RANGE`.
    CopyFileRange,
    /// `FUSE_CREATE`.
    Create,
    /// `FUSE_DESTROY`.
    Destroy,
    /// `FUSE_FALLOCATE`.
    Fallocate,
    /// `FUSE_FLUSH`.
    Flush,
    /// `FUSE_FORGET`.
    Forget,
    /// `FUSE_FSYNC`.
    Fsync,
    /// `FUSE_FSYNCDIR`.
    Fsyncdir,
    /// `FUSE_GETATTR`.
    Getattr,
    /// `FUSE_GETLK`.
    Getlk,
    /// `FUSE_GETXATTR`.
    Getxattr,
    /// `FUSE_INTERRUPT`.
    Interrupt,
    /// `FUSE_IOCTL`.
    Ioctl,
    /// `FUSE_LINK`.
    Link,
    /// `FUSE_LISTXATTR`.
    Listxattr,
    /// `FUSE_LOOKUP`.
    Lookup,
    /// `FUSE_LSEEK`.
    Lseek,
    /// `FUSE_MKDIR`.
    Mkdir,
    /// `FUSE_MKNOD`.
    Mknod,
    /// `FUSE_OPEN`.
    Open,
    /// `FUSE_OPENDIR`.
    Opendir,
    /// `FUSE_POLL`.
    Poll,
    /// `FUSE_READ`.
    Read,
    /// `FUSE_READDIR`.
    Readdir,
    /// `FUSE_READDIRPLUS`.
    Readdirplus,
    /// `FUSE_READLINK`.
    Readlink,
    /// `FUSE_RELEASE`.
    Release,
    /// `FUSE_RELEASEDIR`.
    Releasedir,
    /// `FUSE_REMOVEXATTR`.
    Removexattr,
    /// `FUSE_RENAME`.
    Rename,
    /// `FUSE_RENAME2`.
    Rename2,
    /// `FUSE_RMDIR`.
    Rmdir,
    /// `FUSE_SETATTR`.
    Setattr,
    /// `FUSE_SETLK`.
    Setlk,
    /// `FUSE_SETLKW`.
    Setlkw,
    /// `FUSE_SETXATTR`.
    Setxattr,
    /// `FUSE_STATFS`.
    Statfs,
    /// `FUSE_SYMLINK`.
    Symlink,
    /// `FUSE_SYNCFS`.
    Syncfs,
    /// `FUSE_UNLINK`.
    Unlink,
    /// `FUSE_WRITE`.
    Write,
    /// Any other opcode.
    Unimplemented,
}

/// The handler for a FUSE request with opcode `opcode`.
pub open spec fn spec_fuse_route(opcode: u32) -> FuseHandler {
    if opcode == FUSE_ACCESS {
        FuseHandler::Access
    } else if opcode == FUSE_BATCH_FORGET {
        FuseHandler::BatchForget
    } else if opcode == FUSE_BMAP {
        FuseHandler::Bmap
    } else if opcode == FUSE_COPY_FILE_RANGE {
        FuseHandler::CopyFileRange
    } else if opcode == FUSE_CREATE {
        FuseHandler::Create
    } else if opcode == FUSE_DESTROY {
        FuseHandler::Destroy
    } else if opcode == FUSE_FALLOCATE {
        FuseHandler::Fallocate
    } else if opcode == FUSE_FLUSH {
        FuseHandler::Flush
    } else if opcode == FUSE_FORGET {
        FuseHandler::Forget
    } else if opcode == FUSE_FSYNC {
        FuseHandler::Fsync
    } else if opcode == FUSE_FSYNCDIR {
        FuseHandler::Fsyncdir
    } else if opcode == FUSE_GETATTR {
        FuseHandler::Getattr
    } else if opcode == FUSE_GETLK {
        FuseHandler::Getlk
    } else if opcode == FUSE_GETXATTR {
        FuseHandler::Getxattr
    } else if opcode == FUSE_INTERRUPT {
        FuseHandler::Interrupt
    } else if opcode == FUSE_IOCTL {
        FuseHandler::Ioctl
    } else if opcode == FUSE_LINK {
        FuseHandler::Link
    } else if opcode == FUSE_LISTXATTR {
        FuseHandler::Listxattr
    } else if opcode == FUSE_LOOKUP {
        FuseHandler::Lookup
    } else if opcode == FUSE_LSEEK {
        FuseHandler::Lseek
    } else if opcode == FUSE_MKDIR {
        FuseHandler::Mkdir
    } else if opcode == FUSE_MKNOD {
        FuseHandler::Mknod
    } else if opcode == FUSE_OPEN {
        FuseHandler::Open
    } else if opcode == FUSE_OPENDIR {
        FuseHandler::Opendir
    } else if opcode == FUSE_POLL {
        FuseHandler::Poll
    } else if opcode == FUSE_READ {
        FuseHandler::Read
    } else if opcode == FUSE_READDIR {
        FuseHandler::Readdir
    } else if opcode == FUSE_READDIRPLUS {
        FuseHandler::Readdirplus
    } else if opcode == FUSE_READLINK {
        FuseHandler::Readlink
    } else if opcode == FUSE_RELEASE {
        FuseHandler::Release
    } else if opcode == FUSE_RELEASEDIR {
        FuseHandler::Releasedir
    } else if opcode == FUSE_REMOVEXATTR {
        FuseHandler::Removexattr
    } else if opcode == FUSE_RENAME {
        FuseHandler::Rename
    } else if opcode == FUSE_RENAME2 {
        FuseHandler::Rename2
    } else if opcode == FUSE_RMDIR {
        FuseHandler::Rmdir
    } else if opcode == FUSE_SETATTR {
        FuseHandler::Setattr
    } else if opcode == FUSE_SETLK {
        FuseHandler::Setlk
    } else if opcode == FUSE_SETLKW {
        FuseHandler::Setlkw
    } else if opcode == FUSE_SETXATTR {
        FuseHandler::Setxattr
    } else if opcode == FUSE_STATFS {
        FuseHandler::Statfs
    } else if opcode == FUSE_SYMLINK {
        FuseHandler::Symlink
    } else if opcode == FUSE_SYNCFS {
        FuseHandler::Syncfs
    } else if opcode == FUSE_UNLINK {
        FuseHandler::Unlink
    } else if opcode == FUSE_WRITE {
        FuseHandler::Write
    } else {
        FuseHandler::Unimplemented
    }
}

/// Chooses the handler for a FUSE request with opcode `opcode`.
pub fn fuse_route(opcode: u32) -> (r: FuseHandler)
    ensures
        r == spec_fuse_route(opcode),
{
    if opcode == FUSE_ACCESS {
        FuseHandler::Access
    } else if opcode == FUSE_BATCH_FORGET {
        FuseHandler::BatchForget
    } else if opcode == FUSE_BMAP {
        FuseHandler::Bmap
    } else if opcode == FUSE_COPY_FILE_RANGE {
        FuseHandler::CopyFileRange
    } else if opcode == FUSE_CREATE {
        FuseHandler::Create
    } else if opcode == FUSE_DESTROY {
        FuseHandler::Destroy
    } else if opcode == FUSE_FALLOCATE {
        FuseHandler::Fallocate
    } else if opcode == FUSE_FLUSH {
        FuseHandler::Flush
    } else if opcode == FUSE_FORGET {
        FuseHandler::Forget
    } else if opcode == FUSE_FSYNC {
        FuseHandler::Fsync
    } else if opcode == FUSE_FSYNCDIR {
        FuseHandler::Fsyncdir
    } else if opcode == FUSE_GETATTR {
        FuseHandler::Getattr
    } else if opcode == FUSE_GETLK {
        FuseHandler::Getlk
    } else if opcode == FUSE_GETXATTR {
        FuseHandler::Getxattr
    } else if opcode == FUSE_INTERRUPT {
        FuseHandler::Interrupt
    } else if opcode == FUSE_IOCTL {
        FuseHandler::Ioctl
    } else if opcode == FUSE_LINK {
        FuseHandler::Link
    } else if opcode == FUSE_LISTXATTR {
        FuseHandler::Listxattr
    } else if opcode == FUSE_LOOKUP {
        FuseHandler::Lookup
    } else if opcode == FUSE_LSEEK {
        FuseHandler::Lseek
    } else if opcode == FUSE_MKDIR {
        FuseHandler::Mkdir
    } else if opcode == FUSE_MKNOD {
        FuseHandler::Mknod
    } else if opcode == FUSE_OPEN {
        FuseHandler::Open
    } else if opcode == FUSE_OPENDIR {
        FuseHandler::Opendir
    } else if opcode == FUSE_POLL {
        FuseHandler::Poll
    } else if opcode == FUSE_READ {
        FuseHandler::Read
    } else if opcode == FUSE_READDIR {
        FuseHandler::Readdir
    } else if opcode == FUSE_READDIRPLUS {
        FuseHandler::Readdirplus
    } else if opcode == FUSE_READLINK {
        FuseHandler::Readlink
    } else if opcode == FUSE_RELEASE {
        FuseHandler::Release
    } else if opcode == FUSE_RELEASEDIR {
        FuseHandler::Releasedir
    } else if opcode == FUSE_REMOVEXATTR {
        FuseHandler::Removexattr
    } else if opcode == FUSE_RENAME {
        FuseHandler::Rename
    } else if opcode == FUSE_RENAME2 {
        FuseHandler::Rename2
    } else if opcode == FUSE_RMDIR {
        FuseHandler::Rmdir
    } else if opcode == FUSE_SETATTR {
        FuseHandler::Setattr
    } else if opcode == FUSE_SETLK {
        FuseHandler::Setlk
    } else if opcode == FUSE_SETLKW {
        FuseHandler::Setlkw
    } else if opcode == FUSE_SETXATTR {
        FuseHandler::Setxattr
    } else if opcode == FUSE_STATFS {
        FuseHandler::Statfs
    } else if opcode == FUSE_SYMLINK {
        FuseHandler::Symlink
    } else if opcode == FUSE_SYNCFS {
        FuseHandler::Syncfs
    } else if opcode == FUSE_UNLINK {
        FuseHandler::Unlink
    } else if opcode == FUSE_WRITE {
        FuseHandler::Write
    } else {
        FuseHandler::Unimplemented
    }
}

/// Whether `handlers` passed `request` to the handler its opcode names: a
/// request that expects a reply was taken by that handler, or passed on to
/// `unimplemented`.
pub open spec fn spec_fuse_dispatched<H: FuseHandlers + ?Sized>(handlers: &H, request: FuseRequest<'_>) -> bool {
    let handler = spec_fuse_route(request.inner.spec_header().opcode);
    spec_fuse_handler_replies(handler) ==> handlers.spec_handled(handler, request) || handlers.spec_handled(
        FuseHandler::Unimplemented,
        request,
    )
}

/// Handlers for the requests of a FUSE session, one method per
/// operation. Each handler that is not overridden passes its request to
/// [`unimplemented`](Self::unimplemented), except those for requests that
/// expect no reply, which drop it.
pub trait FuseHandlers {
    /// Whether this implementation's handler `handler` has taken `request`.
    /// An implementation says what that means for the handlers it defines;
    /// by default nothing is said.
    open spec fn spec_handled(&self, handler: FuseHandler, request: FuseRequest<'_>) -> bool {
        true
    }

    /// Handles a request that no other handler takes.
    fn unimplemented(&self, request: FuseRequest<'_>)
        ensures
            self.spec_handled(FuseHandler::Unimplemented, request),
    ;

    /// Passes `request` to the handler its opcode names.
    fn dispatch(&self, request: FuseRequest<'_>)
        ensures
            ({
                let handler = spec_fuse_route(request.inner.spec_header().opcode);
                spec_fuse_handler_replies(handler) ==> self.spec_handled(handler, request)
                    || self.spec_handled(FuseHandler::Unimplemented, request)
            }),
    {
        match fuse_route(request.header().opcode) {
            FuseHandler::Access => self.access(request),
            FuseHandler::BatchForget => self.batch_forget(request),
            FuseHandler::Bmap => self.bmap(request),
            FuseHandler::CopyFileRange => self.copy_file_range(request),
            FuseHandler::Create => self.create(request),
            FuseHandler::Destroy => self.destroy(request),
            FuseHandler::Fallocate => self.fallocate(request),
            FuseHandler::Flush => self.flush(request),
            FuseHandler::Forget => self.forget(request),
            FuseHandler::Fsync => self.fsync(request),
            FuseHandler::Fsyncdir => self.fsyncdir(request),
            FuseHandler::Getattr => self.getattr(request),
            FuseHandler::Getlk => self.getlk(request),
            FuseHandler::Getxattr => self.getxattr(request),
            FuseHandler::Interrupt => self.interrupt(request),
            FuseHandler::Ioctl => self.ioctl(request),
            FuseHandler::Link => self.link(request),
            FuseHandler::Listxattr => self.listxattr(request),
            FuseHandler::Lookup => self.lookup(request),
            FuseHandler::Lseek => self.lseek(request),
            FuseHandler::Mkdir => self.mkdir(request),
            FuseHandler::Mknod => self.mknod(request),
            FuseHandler::Open => self.open(request),
            FuseHandler::Opendir => self.opendir(request),
            FuseHandler::Poll => self.poll(request),
            FuseHandler::Read => self.read(request),
            FuseHandler::Readdir => self.readdir(request),
            FuseHandler::Readdirplus => self.readdirplus(request),
            FuseHandler::Readlink => self.readlink(request),
            FuseHandler::Release => self.release(request),
            FuseHandler::Releasedir => self.releasedir(request),
            FuseHandler::Removexattr => self.removexattr(request),
            FuseHandler::Rename => self.rename(request),
            FuseHandler::Rename2 => self.rename2(request),
            FuseHandler::Rmdir => self.rmdir(request),
            FuseHandler::Setattr => self.setattr(request),
            FuseHandler::Setlk => self.setlk(request),
            FuseHandler::Setlkw => self.setlkw(request),
            FuseHandler::Setxattr => self.setxattr(request),
            FuseHandler::Statfs => self.statfs(request),
            FuseHandler::Symlink => self.symlink(request),
            FuseHandler::Syncfs => self.syncfs(request),
            FuseHandler::Unlink => self.unlink(request),
            FuseHandler::Write => self.write(request),
            FuseHandler::Unimplemented => self.unimplemented(request),
        }
    }

    /// Handles `FUSE_ACCESS`.
    fn access(&self, request: FuseRequest<'_>)
        ensures
            self.spec_handled(FuseHandler::Access, request) || self.spec_handled(FuseHandler::Unimplemented, request),
    {
        self.unimplemented(request)
    }

    /// Handles `FUSE_BATCH_FORGET`.
    fn batch_forget(&self, request: FuseRequest<'_>) {
        let _ = request;
    }

    /// Handles `FUSE_BMAP`.
    fn bmap(&self, request: FuseRequest<'_>)
        ensures
            self.spec_handled(FuseHandler::Bmap, request) || self.spec_handled(FuseHandler::Unimplemented, request),
    {
        self.unimplemented(request)
    }

    /// Handles `FUSE_COPY_FILE_RANGE`.
    fn copy_file_range(&self, request: FuseRequest<'_>)
        ensures
            self.spec_handled(FuseHandler::CopyFileRange, request) || self.spec_handled(FuseHandler::Unimplemented, request),
    {
        self.unimplemented(request)
    }

    /// Handles `FUSE_CREATE`.
    fn create(&self, request: FuseRequest<'_>)
        ensures
            self.spec_handled(FuseHandler::Create, request) || self.spec_handled(FuseHandler::Unimplemented, request),
    {
        self.unimplemented(request)
    }

    /// Handles `FUSE_DESTROY`.
    fn destroy(&self, request: FuseRequest<'_>)
        ensures
            self.spec_handled(FuseHandler::Destroy, request) || self.spec_handled(FuseHandler::Unimplemented, request),
    {
        self.unimplemented(request)
    }

    /// Handles `FUSE_FALLOCATE`.
    fn fallocate(&self, request: FuseRequest<'_>)
        ensures
            self.spec_handled(FuseHandler::Fallocate, request) || self.spec_handled(FuseHandler::Unimplemented, request),
    {
        self.unimplemented(request)
    }

    /// Handles `FUSE_FLUSH`.
    fn flush(&self, request: FuseRequest<'_>)
        ensures
            self.spec_handled(FuseHandler::Flush, request) || self.spec_handled(FuseHandler::Unimplemented, request),
    {
        self.unimplemented(request)
    }

    /// Handles `FUSE_FORGET`.
    fn forget(&self, request: FuseRequest<'_>) {
        let _ = request;
    }

    /// Handles `FUSE_FSYNC`.
    fn fsync(&self, request: FuseRequest<'_>)
        ensures
            self.spec_handled(FuseHandler::Fsync, request) || self.spec_handled(FuseHandler::Unimplemented, request),
    {
        self.unimplemented(request)
    }

    /// Handles `FUSE_FSYNCDIR`.
    fn fsyncdir(&self, request: FuseRequest<'_>)
        ensures
            self.spec_handled(FuseHandler::Fsyncdir, request) || self.spec_handled(FuseHandler::Unimplemented, request),
    {
        self.unimplemented(request)
    }

    /// Handles `FUSE_GETATTR`.
    fn getattr(&self, request: FuseRequest<'_>)
        ensures
            self.spec_handled(FuseHandler::Getattr, request) || self.spec_handled(FuseHandler::Unimplemented, request),
    {
        self.unimplemented(request)
    }

    /// Handles `FUSE_GETLK`.
    fn getlk(&self, request: FuseRequest<'_>)
        ensures
            self.spec_handled(FuseHandler::Getlk, request) || self.spec_handled(FuseHandler::Unimplemented, request),
    {
        self.unimplemented(request)
    }

    /// Handles `FUSE_GETXATTR`.
    fn getxattr(&self, request: FuseRequest<'_>)
        ensures
            self.spec_handled(FuseHandler::Getxattr, request) || self.spec_handled(FuseHandler::Unimplemented, request),
    {
        self.unimplemented(request)
    }

    /// Handles `FUSE_INTERRUPT`.
    fn interrupt(&self, request: FuseRequest<'_>) {
        let _ = request;
    }

    /// Handles `FUSE_IOCTL`.
    fn ioctl(&self, request: FuseRequest<'_>)
        ensures
            self.spec_handled(FuseHandler::Ioctl, request) || self.spec_handled(FuseHandler::Unimplemented, request),
    {
        self.unimplemented(request)
    }

    /// Handles `FUSE_LINK`.
    fn link(&self, request: FuseRequest<'_>)
        ensures
            self.spec_handled(FuseHandler::Link, request) || self.spec_handled(FuseHandler::Unimplemented, request),
    {
        self.unimplemented(request)
    }

    /// Handles `FUSE_LISTXATTR`.
    fn listxattr(&self, request: FuseRequest<'_>)
        ensures
            self.spec_handled(FuseHandler::Listxattr, request) || self.spec_handled(FuseHandler::Unimplemented, request),
    {
        self.unimplemented(request)
    }

    /// Handles `FUSE_LOOKUP`.
    fn lookup(&self, request: FuseRequest<'_>)
        ensures
            self.spec_handled(FuseHandler::Lookup, request) || self.spec_handled(FuseHandler::Unimplemented, request),
    {
        self.unimplemented(request)
    }

    /// Handles `FUSE_LSEEK`.
    fn lseek(&self, request: FuseRequest<'_>)
        ensures
            self.spec_handled(FuseHandler::Lseek, request) || self.spec_handled(FuseHandler::Unimplemented, request),
    {
        self.unimplemented(request)
    }

    /// Handles `FUSE_MKDIR`.
    fn mkdir(&self, request: FuseRequest<'_>)
        ensures
            self.spec_handled(FuseHandler::Mkdir, request) || self.spec_handled(FuseHandler::Unimplemented, request),
    {
        self.unimplemented(request)
    }

    /// Handles `FUSE_MKNOD`.
    fn mknod(&self, request: FuseRequest<'_>)
        ensures
            self.spec_handled(FuseHandler::Mknod, request) || self.spec_handled(FuseHandler::Unimplemented, request),
    {
        self.unimplemented(request)
    }

    /// Handles `FUSE_OPEN`.
    fn open(&self, request: FuseRequest<'_>)
        ensures
            self.spec_handled(FuseHandler::Open, request) || self.spec_handled(FuseHandler::Unimplemented, request),
    {
        self.unimplemented(request)
    }

    /// Handles `FUSE_OPENDIR`.
    fn opendir(&self, request: FuseRequest<'_>)
        ensures
            self.spec_handled(FuseHandler::Opendir, request) || self.spec_handled(FuseHandler::Unimplemented, request),
    {
        self.unimplemented(request)
    }

    /// Handles `FUSE_POLL`.
    fn poll(&self, request: FuseRequest<'_>)
        ensures
            self.spec_handled(FuseHandler::Poll, request) || self.spec_handled(FuseHandler::Unimplemented, request),
    {
        self.unimplemented(request)
    }

    /// Handles `FUSE_READ`.
    fn read(&self, request: FuseRequest<'_>)
        ensures
            self.spec_handled(FuseHandler::Read, request) || self.spec_handled(FuseHandler::Unimplemented, request),
    {
        self.unimplemented(request)
    }

    /// Handles `FUSE_READDIR`.
    fn readdir(&self, request: FuseRequest<'_>)
        ensures
            self.spec_handled(FuseHandler::Readdir, request) || self.spec_handled(FuseHandler::Unimplemented, request),
    {
        self.unimplemented(request)
    }

    /// Handles `FUSE_READDIRPLUS`.
    fn readdirplus(&self, request: FuseRequest<'_>)
        ensures
            self.spec_handled(FuseHandler::Readdirplus, request) || self.spec_handled(FuseHandler::Unimplemented, request),
    {
        self.unimplemented(request)
    }

    /// Handles `FUSE_READLINK`.
    fn readlink(&self, request: FuseRequest<'_>)
        ensures
            self.spec_handled(FuseHandler::Readlink, request) || self.spec_handled(FuseHandler::Unimplemented, request),
    {
        self.unimplemented(request)
    }

    /// Handles `FUSE_RELEASE`.
    fn release(&self, request: FuseRequest<'_>)
        ensures
            self.spec_handled(FuseHandler::Release, request) || self.spec_handled(FuseHandler::Unimplemented, request),
    {
        self.unimplemented(request)
    }

    /// Handles `FUSE_RELEASEDIR`.
    fn releasedir(&self, request: FuseRequest<'_>)
        ensures
            self.spec_handled(FuseHandler::Releasedir, request) || self.spec_handled(FuseHandler::Unimplemented, request),
    {
        self.unimplemented(request)
    }

    /// Handles `FUSE_REMOVEXATTR`.
    fn removexattr(&self, request: FuseRequest<'_>)
        ensures
            self.spec_handled(FuseHandler::Removexattr, request) || self.spec_handled(FuseHandler::Unimplemented, request),
    {
        self.unimplemented(request)
    }

    /// Handles `FUSE_RENAME`.
    fn rename(&self, request: FuseRequest<'_>)
        ensures
            self.spec_handled(FuseHandler::Rename, request) || self.spec_handled(FuseHandler::Unimplemented, request),
    {
        self.unimplemented(request)
    }

    /// Handles `FUSE_RENAME2`.
    fn rename2(&self, request: FuseRequest<'_>)
        ensures
            self.spec_handled(FuseHandler::Rename2, request) || self.spec_handled(FuseHandler::Unimplemented, request),
    {
        self.unimplemented(request)
    }

    /// Handles `FUSE_RMDIR`.
    fn rmdir(&self, request: FuseRequest<'_>)
        ensures
            self.spec_handled(FuseHandler::Rmdir, request) || self.spec_handled(FuseHandler::Unimplemented, request),
    {
        self.unimplemented(request)
    }

    /// Handles `FUSE_SETATTR`.
    fn setattr(&self, request: FuseRequest<'_>)
        ensures
            self.spec_handled(FuseHandler::Setattr, request) || self.spec_handled(FuseHandler::Unimplemented, request),
    {
        self.unimplemented(request)
    }

    /// Handles `FUSE_SETLK`.
    fn setlk(&self, request: FuseRequest<'_>)
        ensures
            self.spec_handled(FuseHandler::Setlk, request) || self.spec_handled(FuseHandler::Unimplemented, request),
    {
        self.unimplemented(request)
    }

    /// Handles `FUSE_SETLKW`.
    fn setlkw(&self, request: FuseRequest<'_>)
        ensures
            self.spec_handled(FuseHandler::Setlkw, request) || self.spec_handled(FuseHandler::Unimplemented, request),
    {
        self.unimplemented(request)
    }

    /// Handles `FUSE_SETXATTR`.
    fn setxattr(&self, request: FuseRequest<'_>)
        ensures
            self.spec_handled(FuseHandler::Setxattr, request) || self.spec_handled(FuseHandler::Unimplemented, request),
    {
        self.unimplemented(request)
    }

    /// Handles `FUSE_STATFS`.
    fn statfs(&self, request: FuseRequest<'_>)
        ensures
            self.spec_handled(FuseHandler::Statfs, request) || self.spec_handled(FuseHandler::Unimplemented, request),
    {
        self.unimplemented(request)
    }

    /// Handles `FUSE_SYMLINK`.
    fn symlink(&self, request: FuseRequest<'_>)
        ensures
            self.spec_handled(FuseHandler::Symlink, request) || self.spec_handled(FuseHandler::Unimplemented, request),
    {
        self.unimplemented(request)
    }

    /// Handles `FUSE_SYNCFS`.
    fn syncfs(&self, request: FuseRequest<'_>)
        ensures
            self.spec_handled(FuseHandler::Syncfs, request) || self.spec_handled(FuseHandler::Unimplemented, request),
    {
        self.unimplemented(request)
    }

    /// Handles `FUSE_UNLINK`.
    fn unlink(&self, request: FuseRequest<'_>)
        ensures
            self.spec_handled(FuseHandler::Unlink, request) || self.spec_handled(FuseHandler::Unimplemented, request),
    {
        self.unimplemented(request)
    }

    /// Handles `FUSE_WRITE`.
    fn write(&self, request: FuseRequest<'_>)
        ensures
            self.spec_handled(FuseHandler::Write, request) || self.spec_handled(FuseHandler::Unimplemented, request),
    {
        self.unimplemented(request)
    }
}

} // verus!
