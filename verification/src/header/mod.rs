pub mod bits_time;
pub mod errno;
pub mod fcntl;
pub mod linux_fb;
pub mod nl_types;
pub mod pty;
pub mod sched;
pub mod signal;
pub mod spawn;
pub mod sys_epoll;
pub mod sys_ioctl;
pub mod sys_ipc;
pub mod sys_kd;
pub mod sys_mman;
pub mod sys_socket;
pub mod sys_stat;
pub mod sys_statvfs;
pub mod sys_sysinfo;
pub mod sys_utsname;
pub mod sys_vt;
pub mod sys_wait;
pub mod termios;
pub mod time;
pub mod unistd;
