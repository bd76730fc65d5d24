//! The LCD controller: each display operation encodes its command frame and
//! hands it to the transport, with the settling delay that plain commands
//! need.

use vstd::prelude::*;
use vstd::utf8::encode_utf8;
use crate::protocol::{
    backlight_frame, command_frame, encode_backlight, encode_command, encode_special_command,
    repeat_count, special_frame, CLEAR_COMMAND, HOME_CURSOR_COMMAND, SETTLE_DELAY_MS,
};
use crate::transport::{Transport, TransportError};

verus! {

/// A display controller: a fixed bus address and exclusive ownership of the
/// transport that reaches the device.
pub struct LcdConn<T: Transport> {
    /// The 7-bit device address on the bus; fixed at construction.
    pub lcd_address: u16,
    /// The bus adapter; owned exclusively by this controller.
    pub connection: T,
}

impl<T: Transport> LcdConn<T> {
    /// Take ownership of a live transport and remember the device address.
    pub fn new(lcd_address: u16, connection: T) -> (c: LcdConn<T>)
        ensures
            c.lcd_address == lcd_address,
            c.connection == connection,
    {
        LcdConn { lcd_address, connection }
    }

    /// Prepare the display for use. The controller needs no set-up beyond a
    /// live transport, so this sends nothing.
    pub fn begin(&mut self) -> (r: Result<(), TransportError>)
        ensures
            r is Ok,
            *final(self) == *old(self),
    {
        Ok(())
    }

    /// Hand one buffer to the transport as a single bus transaction.
    fn write_bytes(&mut self, buffer: &[u8]) -> (r: Result<usize, TransportError>)
        ensures
            final(self).lcd_address == old(self).lcd_address,
            final(self).connection.delays() == old(self).connection.delays(),
            final(self).connection.fault() == old(self).connection.fault(),
            final(self).connection.reliable() == old(self).connection.reliable(),
            old(self).connection.reliable() && old(self).connection.fault() is None ==> r is Ok,
            (r matches Ok(n) ==> {
                &&& old(self).connection.fault() is None
                &&& final(self).connection.writes() == old(self).connection.writes().push(buffer@)
                &&& n == buffer@.len()
            }),
            (r matches Err(e) ==> {
                &&& final(self).connection.writes() == old(self).connection.writes()
                &&& (old(self).connection.fault() matches Some(f) ==> e == f)
            }),
    {
        self.connection.write(buffer)
    }

    /// Send a plain setting command: the frame `[0x7C, opcode]` in one
    /// transaction, then the fixed settling delay the controller needs
    /// before it accepts anything further.
    pub fn command(&mut self, opcode: u8) -> (r: Result<(), TransportError>)
        ensures
            final(self).lcd_address == old(self).lcd_address,
            final(self).connection.fault() == old(self).connection.fault(),
            final(self).connection.reliable() == old(self).connection.reliable(),
            old(self).connection.reliable() && old(self).connection.fault() is None ==> r is Ok,
            r is Ok ==> {
                &&& old(self).connection.fault() is None
                &&& final(self).connection.writes() == old(self).connection.writes().push(
                    command_frame(opcode))
                &&& final(self).connection.delays() == old(self).connection.delays().push(
                    SETTLE_DELAY_MS)
            },
            (r matches Err(e) ==> {
                &&& final(self).connection.writes() == old(self).connection.writes()
                &&& final(self).connection.delays() == old(self).connection.delays()
                &&& (old(self).connection.fault() matches Some(f) ==> e == f)
            }),
    {
        let data: Vec<u8> = encode_command(opcode);
        match self.write_bytes(data.as_slice()) {
            Ok(_) => {
                self.connection.delay_ms(SETTLE_DELAY_MS);
                Ok(())
            },
            Err(e) => Err(e),
        }
    }

    /// Send a special command: the frame `[254]` followed by the opcode
    /// repeated as often as `count` asks (once when `count` is `None`), in
    /// one transaction and with no settling delay.
    pub fn special_command(&mut self, opcode: u8, count: Option<u8>) -> (r: Result<
        (),
        TransportError,
    >)
        ensures
            final(self).lcd_address == old(self).lcd_address,
            final(self).connection.fault() == old(self).connection.fault(),
            final(self).connection.reliable() == old(self).connection.reliable(),
            old(self).connection.reliable() && old(self).connection.fault() is None ==> r is Ok,
            final(self).connection.delays() == old(self).connection.delays(),
            r is Ok ==> {
                &&& old(self).connection.fault() is None
                &&& final(self).connection.writes() == old(self).connection.writes().push(
                    special_frame(opcode, repeat_count(count)))
            },
            (r matches Err(e) ==> {
                &&& final(self).connection.writes() == old(self).connection.writes()
                &&& (old(self).connection.fault() matches Some(f) ==> e == f)
            }),
    {
        let data: Vec<u8> = encode_special_command(opcode, count);
        match self.write_bytes(data.as_slice()) {
            Ok(_) => Ok(()),
            Err(e) => Err(e),
        }
    }

    /// Clear the display and reset the cursor: exactly the plain command
    /// with the clear opcode.
    pub fn clear(&mut self) -> (r: Result<(), TransportError>)
        ensures
            final(self).lcd_address == old(self).lcd_address,
            final(self).connection.fault() == old(self).connection.fault(),
            final(self).connection.reliable() == old(self).connection.reliable(),
            old(self).connection.reliable() && old(self).connection.fault() is None ==> r is Ok,
            r is Ok ==> {
                &&& old(self).connection.fault() is None
                &&& final(self).connection.writes() == old(self).connection.writes().push(
                    command_frame(CLEAR_COMMAND))
                &&& final(self).connection.delays() == old(self).connection.delays().push(
                    SETTLE_DELAY_MS)
            },
            (r matches Err(e) ==> {
                &&& final(self).connection.writes() == old(self).connection.writes()
                &&& final(self).connection.delays() == old(self).connection.delays()
                &&& (old(self).connection.fault() matches Some(f) ==> e == f)
            }),
    {
        self.command(CLEAR_COMMAND)
    }

    /// Move the cursor to the top-left cell: exactly the special command
    /// with the home opcode, repeated once.
    pub fn home(&mut self) -> (r: Result<(), TransportError>)
        ensures
            final(self).lcd_address == old(self).lcd_address,
            final(self).connection.fault() == old(self).connection.fault(),
            final(self).connection.reliable() == old(self).connection.reliable(),
            old(self).connection.reliable() && old(self).connection.fault() is None ==> r is Ok,
            final(self).connection.delays() == old(self).connection.delays(),
            r is Ok ==> {
                &&& old(self).connection.fault() is None
                &&& final(self).connection.writes() == old(self).connection.writes().push(
                    special_frame(HOME_CURSOR_COMMAND, 1))
            },
            (r matches Err(e) ==> {
                &&& final(self).connection.writes() == old(self).connection.writes()
                &&& (old(self).connection.fault() matches Some(f) ==> e == f)
            }),
    {
        self.special_command(HOME_CURSOR_COMMAND, None)
    }

    /// Show `message` at the current cursor position: its raw bytes go out
    /// with no framing prefix, so the controller treats them as characters.
    /// Line and column limits are the caller's concern.
    pub fn write_string(&mut self, message: String) -> (r: Result<(), TransportError>)
        ensures
            final(self).lcd_address == old(self).lcd_address,
            final(self).connection.fault() == old(self).connection.fault(),
            final(self).connection.reliable() == old(self).connection.reliable(),
            old(self).connection.reliable() && old(self).connection.fault() is None ==> r is Ok,
            final(self).connection.delays() == old(self).connection.delays(),
            r is Ok ==> {
                &&& old(self).connection.fault() is None
                &&& final(self).connection.writes() == old(self).connection.writes().push(
                    encode_utf8(message@))
            },
            (r matches Err(e) ==> {
                &&& final(self).connection.writes() == old(self).connection.writes()
                &&& (old(self).connection.fault() matches Some(f) ==> e == f)
            }),
    {
        match self.write_bytes(message.as_str().as_bytes()) {
            Ok(_) => Ok(()),
            Err(e) => Err(e),
        }
    }

    /// Set the backlight color: each channel is remapped from the full
    /// `0..=255` range into the narrow band the controller firmware accepts,
    /// and the three remapped bytes go out as the payload of one plain
    /// backlight command frame.
    pub fn set_backlight_rgb(&mut self, red: u8, green: u8, blue: u8) -> (r: Result<
        (),
        TransportError,
    >)
        ensures
            final(self).lcd_address == old(self).lcd_address,
            final(self).connection.fault() == old(self).connection.fault(),
            final(self).connection.reliable() == old(self).connection.reliable(),
            old(self).connection.reliable() && old(self).connection.fault() is None ==> r is Ok,
            final(self).connection.delays() == old(self).connection.delays(),
            r is Ok ==> {
                &&& old(self).connection.fault() is None
                &&& final(self).connection.writes() == old(self).connection.writes().push(
                    backlight_frame(red, green, blue))
            },
            (r matches Err(e) ==> {
                &&& final(self).connection.writes() == old(self).connection.writes()
                &&& (old(self).connection.fault() matches Some(f) ==> e == f)
            }),
    {
        let data: Vec<u8> = encode_backlight(red, green, blue);
        match self.write_bytes(data.as_slice()) {
            Ok(_) => Ok(()),
            Err(e) => Err(e),
        }
    }
}

} // verus!
