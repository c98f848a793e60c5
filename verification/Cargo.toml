[package]
name = "autotext"
version = "0.1.0"
edition = "2021"
publish = false

[dependencies]
base64 = "0.22"
blake2 = "0.10"
cryptostream = "0.3"
openssl = "0.10"
regex = "1"
sqlite = "0.36"
gtk = "0.18"
glib = "0.18"
gio = "0.18"
gdk = "0.18"
gdk-pixbuf = "0.18"
